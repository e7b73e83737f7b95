use realearn::pot::{
    CurrentPreset, DatabaseId, Fil, FilterItemId, Filters, InnerPresetId, MacroParam,
    MacroParamBank, PersistentDatabaseId, PersistentInnerPresetId, PersistentPresetId,
    PotFavorites, PotFilterExcludes, Preset, PresetId, ProductId,
};
use realearn::target_api::PotFilterKind;

#[test]
fn format_persistent_preset_id() {
    let id = PersistentPresetId::new(
        PersistentDatabaseId::new("test|hello".into()),
        PersistentInnerPresetId::new("vst2|124135".into()),
    );
    assert_eq!(id.to_string(), r#"test\|hello|vst2|124135"#);
}

#[test]
fn parse_persistent_preset_id() {
    let expression = r#"test\|hello|vst2|124135"#;
    let parsed_id: PersistentPresetId = PersistentPresetId::parse(expression).unwrap();
    let expected_id = PersistentPresetId::new(
        PersistentDatabaseId::new("test|hello".into()),
        PersistentInnerPresetId::new("vst2|124135".into()),
    );
    assert_eq!(parsed_id, expected_id);
}

#[test]
fn parse_without_separator_fails() {
    assert!(PersistentPresetId::parse(r#"no-separator-at-all"#).is_err());
    assert!(PersistentPresetId::parse(r#"only\|escaped"#).is_err());
}

#[test]
fn filters_round_trip_preserves_effective_sub_items() {
    // Parent set to the explicit <None> item: it overrides the sub filter.
    let mut with_none = Filters::empty();
    with_none.set(PotFilterKind::Bank, Some(FilterItemId(None)));
    with_none.set(
        PotFilterKind::SubBank,
        Some(FilterItemId(Some(Fil::Komplete(7)))),
    );
    let restored = Filters::from_persistent(&with_none.to_persistent());
    assert_eq!(restored.effective_sub_bank(), with_none.effective_sub_bank());
    assert_eq!(restored.effective_sub_bank(), Some(FilterItemId(None)));

    // Parent set to a concrete value: the sub filter wins.
    let mut with_concrete = Filters::empty();
    with_concrete.set(
        PotFilterKind::Category,
        Some(FilterItemId(Some(Fil::Komplete(3)))),
    );
    with_concrete.set(
        PotFilterKind::SubCategory,
        Some(FilterItemId(Some(Fil::Komplete(4)))),
    );
    let restored = Filters::from_persistent(&with_concrete.to_persistent());
    assert_eq!(
        restored.effective_sub_category(),
        with_concrete.effective_sub_category()
    );
    assert_eq!(
        restored.effective_sub_category(),
        Some(FilterItemId(Some(Fil::Komplete(4))))
    );

    // Parent not set at all: the sub filter passes through unchanged.
    let mut unset_parent = Filters::empty();
    unset_parent.set(
        PotFilterKind::SubBank,
        Some(FilterItemId(Some(Fil::Komplete(9)))),
    );
    let restored = Filters::from_persistent(&unset_parent.to_persistent());
    assert_eq!(
        restored.effective_sub_bank(),
        unset_parent.effective_sub_bank()
    );
    assert_eq!(
        restored.effective_sub_bank(),
        Some(FilterItemId(Some(Fil::Komplete(9))))
    );
}

#[test]
fn filters_matching() {
    let mut filters = Filters::empty();
    // <Any> matches everything.
    assert!(filters.matches(PotFilterKind::Database, Fil::Database(DatabaseId(1))));
    // The <None> item matches nothing where <None> is not meaningful.
    filters.set(PotFilterKind::Database, Some(FilterItemId(None)));
    assert!(!filters.matches(PotFilterKind::Database, Fil::Database(DatabaseId(1))));
    // A concrete filter matches exactly its own value.
    filters.set(
        PotFilterKind::Database,
        Some(FilterItemId(Some(Fil::Database(DatabaseId(1))))),
    );
    assert!(filters.matches(PotFilterKind::Database, Fil::Database(DatabaseId(1))));
    assert!(!filters.matches(PotFilterKind::Database, Fil::Database(DatabaseId(2))));
    assert!(filters.database_matches(DatabaseId(1)));
}

#[test]
fn filters_clear_dependent() {
    let mut filters = Filters::empty();
    filters.set(
        PotFilterKind::Bank,
        Some(FilterItemId(Some(Fil::Komplete(1)))),
    );
    filters.set(
        PotFilterKind::SubBank,
        Some(FilterItemId(Some(Fil::Komplete(2)))),
    );
    filters.set(
        PotFilterKind::Database,
        Some(FilterItemId(Some(Fil::Database(DatabaseId(5))))),
    );
    filters.clear_this_and_dependent_filters(PotFilterKind::Bank);
    assert_eq!(filters.get(PotFilterKind::Bank), None);
    assert_eq!(filters.get(PotFilterKind::SubBank), None);
    // A dimension with a lower dependency position stays.
    assert_eq!(
        filters.get(PotFilterKind::Database),
        Some(FilterItemId(Some(Fil::Database(DatabaseId(5)))))
    );
}

#[test]
fn favorites_toggle() {
    let mut favorites = PotFavorites::new();
    let preset = PresetId::new(DatabaseId(1), InnerPresetId(42));
    assert!(!favorites.is_favorite(preset));
    favorites.toggle_favorite(preset);
    assert!(favorites.is_favorite(preset));
    // A different database with the same inner id is unrelated.
    let other = PresetId::new(DatabaseId(2), InnerPresetId(42));
    assert!(!favorites.is_favorite(other));
    favorites.toggle_favorite(preset);
    assert!(!favorites.is_favorite(preset));
}

#[test]
fn favorites_toggle_leaves_others_alone() {
    let mut favorites = PotFavorites::new();
    let a = PresetId {
        database_id: DatabaseId(1),
        preset_id: InnerPresetId(10),
    };
    let b = PresetId {
        database_id: DatabaseId(1),
        preset_id: InnerPresetId(11),
    };
    let c = PresetId {
        database_id: DatabaseId(2),
        preset_id: InnerPresetId(10),
    };
    favorites.toggle_favorite(a);
    favorites.toggle_favorite(b);
    favorites.toggle_favorite(c);
    // Removing one favorite leaves the same preset id in another database
    // and another id in the same database untouched.
    favorites.toggle_favorite(a);
    assert!(!favorites.is_favorite(a));
    assert!(favorites.is_favorite(b));
    assert!(favorites.is_favorite(c));
}

#[test]
fn excludes() {
    let mut excludes = PotFilterExcludes::new();
    let item = FilterItemId(Some(Fil::Product(ProductId(3))));
    assert!(!excludes.contains(PotFilterKind::Bank, item));
    excludes.add(PotFilterKind::Bank, item);
    assert!(excludes.contains(PotFilterKind::Bank, item));
    assert!(excludes.contains_product(Some(ProductId(3))));
    // The same item under another dimension is not excluded.
    assert!(!excludes.contains(PotFilterKind::Database, item));
    excludes.remove(PotFilterKind::Bank, item);
    assert!(!excludes.contains(PotFilterKind::Bank, item));
}

#[test]
fn filters_clear_excluded() {
    let mut excludes = PotFilterExcludes::new();
    excludes.add(PotFilterKind::Bank, FilterItemId(Some(Fil::Komplete(1))));
    let mut filters = Filters::empty();
    filters.set(
        PotFilterKind::Bank,
        Some(FilterItemId(Some(Fil::Komplete(1)))),
    );
    filters.set(
        PotFilterKind::Category,
        Some(FilterItemId(Some(Fil::Komplete(2)))),
    );
    filters.clear_excluded_ones(&excludes);
    assert_eq!(filters.get(PotFilterKind::Bank), None);
    assert_eq!(
        filters.get(PotFilterKind::Category),
        Some(FilterItemId(Some(Fil::Komplete(2))))
    );
}

#[test]
fn macro_param_banks() {
    let bank = |section: &str, count: usize| {
        let mut params = Vec::new();
        for i in 0..count {
            params.push(MacroParam {
                name: format!("p{i}"),
                section_name: if i == 0 { section.to_string() } else { String::new() },
                param_index: Some(i as u32),
            });
        }
        MacroParamBank::new(params)
    };
    let preset = CurrentPreset {
        preset: Preset {
            id: realearn::pot::PersistentPresetId::new(
                PersistentDatabaseId::new("db".into()),
                PersistentInnerPresetId::new("p".into()),
            ),
            name: "pad".to_string(),
        },
        macro_param_banks: vec![bank("Main", 8), bank("Filter", 4)],
    };
    assert!(preset.has_params());
    assert_eq!(preset.macro_param_bank_count(), 2);
    // Flat slot 9 is slot 1 of bank 1.
    let param = preset.find_macro_param_at(9).unwrap();
    assert_eq!(param.param_index, Some(1));
    // Bank 1 has only 4 slots.
    assert!(preset.find_macro_param_at(12).is_none());
    assert_eq!(preset.macro_param_banks[0].name(), "Main");
    assert_eq!(preset.macro_param_banks[0].param_count(), 8);
}

#[test]
fn filter_kind_relationships() {
    assert_eq!(PotFilterKind::SubBank.parent(), Some(PotFilterKind::Bank));
    assert_eq!(PotFilterKind::SubCategory.parent(), Some(PotFilterKind::Category));
    assert_eq!(PotFilterKind::Database.parent(), None);
    assert!(PotFilterKind::Bank.allows_excludes());
    assert!(!PotFilterKind::IsFavorite.allows_excludes());
    assert!(PotFilterKind::Mode.wants_sorting());
    assert!(PotFilterKind::Database.is_core_kind());
    assert!(!PotFilterKind::SubBank.is_core_kind());
    let dependent = PotFilterKind::Category.dependent_kinds();
    assert!(dependent.contains(&PotFilterKind::SubCategory));
    assert!(dependent.contains(&PotFilterKind::Mode));
    assert!(!dependent.contains(&PotFilterKind::Bank));
}
