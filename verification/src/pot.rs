//! Preset-browser state: filters, favorites, macro banks and preset
//! identifiers.
//!
//! Filters form a table over the filter dimensions; the effective sub-bank
//! and sub-category follow the rule that a parent set to the explicit
//! "none" value overrides its sub-dimension. Persistent preset ids carry a
//! database part and an inner part joined by a pipe, with pipes in the
//! database part escaped.

use vstd::prelude::*;
use vstd::string::StrSliceExecFns;
use vstd::string::StringExecFns;

use crate::target_api::{PotFilterKind, POT_FILTER_KIND_COUNT};

verus! {

/// Identifies a preset database at runtime.
#[derive(Clone, Copy, PartialEq, Eq, Structural, Debug, Hash)]
pub struct DatabaseId(pub u32);

/// Identifies a preset within its database, stable only at runtime.
#[derive(Clone, Copy, PartialEq, Eq, Structural, Debug, Hash)]
pub struct InnerPresetId(pub u32);

/// Identifies a preset along with its database, stable only at runtime.
#[derive(Clone, Copy, PartialEq, Eq, Structural, Debug, Hash)]
pub struct PresetId {
    pub database_id: DatabaseId,
    pub preset_id: InnerPresetId,
}

impl PresetId {
    pub fn new(database_id: DatabaseId, preset_id: InnerPresetId) -> (r: PresetId)
        ensures
            r.database_id == database_id,
            r.preset_id == preset_id,
    {
        PresetId { database_id, preset_id }
    }
}

/// Identifies a product.
#[derive(Clone, Copy, PartialEq, Eq, Structural, Debug, Hash)]
pub struct ProductId(pub u32);

/// The kind of product a preset belongs to.
#[derive(Clone, Copy, PartialEq, Eq, Structural, Debug, Hash)]
pub enum ProductKind {
    Instrument,
    Effect,
    Loop,
    OneShot,
}

/// A filter value: one concrete type of filter item.
#[derive(Clone, Copy, PartialEq, Eq, Structural, Debug, Hash)]
pub enum Fil {
    /// An integer value referring to an item of a database scan; stable
    /// only until the next scan.
    Komplete(u32),
    /// Refers to a database; valid only at runtime.
    Database(DatabaseId),
    /// Something true or false, such as "favorite" or "available".
    Boolean(bool),
    /// A kind of product.
    ProductKind(ProductKind),
    /// A product; the ids are created at runtime.
    Product(ProductId),
}

/// A chosen filter item: `None` stands for the explicit `<None>` item.
#[derive(Clone, Copy, PartialEq, Eq, Structural, Debug, Hash)]
pub struct FilterItemId(pub Option<Fil>);

impl FilterItemId {
    /// The explicit `<None>` filter item.
    pub fn none() -> (r: FilterItemId)
        ensures
            r.0 is None,
    {
        FilterItemId(None)
    }
}

/// `Some` means a filter is set (possibly to the `<None>` item); `None`
/// means no filter is set (`<Any>`).
pub type OptFilter = Option<FilterItemId>;

/// The filter state of the preset browser: one optional filter per
/// dimension.
pub struct Filters {
    values: Vec<OptFilter>,
}

impl Filters {
    #[verifier::type_invariant]
    pub closed spec fn inv(self) -> bool {
        self.values@.len() == POT_FILTER_KIND_COUNT
    }

    /// The filter chosen for a dimension.
    pub closed spec fn spec_get(self, kind: PotFilterKind) -> OptFilter {
        if kind.spec_index() < self.values@.len() {
            self.values@[kind.spec_index()]
        } else {
            None
        }
    }

    /// The effective sub-filter under a parent: when the parent is set to
    /// the explicit `<None>` item, the sub-dimension is overridden by it.
    pub open spec fn spec_effective_sub_item(
        self,
        parent_kind: PotFilterKind,
        sub_kind: PotFilterKind,
    ) -> OptFilter {
        if self.spec_get(parent_kind) == Some(FilterItemId(None)) {
            self.spec_get(parent_kind)
        } else {
            self.spec_get(sub_kind)
        }
    }

    /// No filter set anywhere.
    pub fn empty() -> (r: Filters)
        ensures
            forall|k: PotFilterKind| #[trigger] r.spec_get(k) is None,
    {
        let mut values: Vec<OptFilter> = Vec::new();
        let mut i: usize = 0;
        while i < POT_FILTER_KIND_COUNT
            invariant
                i <= POT_FILTER_KIND_COUNT,
                values@.len() == i,
                forall|j: int| 0 <= j < i ==> values@[j] is None,
            decreases POT_FILTER_KIND_COUNT - i,
        {
            values.push(None);
            i += 1;
        }
        Filters { values }
    }

    pub fn get(&self, kind: PotFilterKind) -> (r: OptFilter)
        ensures
            r == self.spec_get(kind),
    {
        proof {
            use_type_invariant(&*self);
        }
        self.values[kind.index()]
    }

    pub fn set(&mut self, kind: PotFilterKind, value: OptFilter)
        ensures
            final (self).spec_get(kind) == value,
            forall|k: PotFilterKind|
                k != kind ==> #[trigger] final (self).spec_get(k) == old(self).spec_get(k),
    {
        proof {
            use_type_invariant(&*self);
        }
        let target = kind.index();
        let mut values: Vec<OptFilter> = Vec::new();
        let mut j: usize = 0;
        while j < self.values.len()
            invariant
                j <= self.values@.len(),
                values@.len() == j,
                self.values@ == old(self).values@,
                target == kind.spec_index(),
                forall|w: int|
                    0 <= w < j ==> values@[w] == (if w == target {
                        value
                    } else {
                        self.values@[w]
                    }),
            decreases self.values@.len() - j,
        {
            if j == target {
                values.push(value);
            } else {
                values.push(self.values[j]);
            }
            j += 1;
        }
        self.values = values;
        proof {
            assert forall|k: PotFilterKind|
                k != kind implies #[trigger] self.spec_get(k) == old(self).spec_get(k) by {
                if k.spec_index() == kind.spec_index() {
                    crate::target_api::lemma_pot_filter_kind_index_injective(k, kind);
                }
            }
        }
    }

    /// Whether the dimension is set to a concrete value (not `<Any>`, not
    /// `<None>`).
    pub fn is_set_to_concrete_value(&self, kind: PotFilterKind) -> (r: bool)
        ensures
            r == (self.spec_get(kind) matches Some(id) && id.0 is Some),
    {
        match self.get(kind) {
            Some(FilterItemId(Some(_))) => true,
            _ => false,
        }
    }

    /// Whether a concrete value passes the filter of a dimension where the
    /// `<None>` item is not meaningful: `<Any>` passes everything, the
    /// `<None>` item passes nothing, a concrete filter passes its own
    /// value.
    pub fn matches(&self, kind: PotFilterKind, fil: Fil) -> (r: bool)
        ensures
            r == (match self.spec_get(kind) {
                None => true,
                Some(id) => (match id.0 {
                    None => false,
                    Some(wanted) => wanted == fil,
                }),
            }),
    {
        match self.get(kind) {
            None => true,
            Some(FilterItemId(None)) => false,
            Some(FilterItemId(Some(wanted))) => wanted == fil,
        }
    }

    /// Whether an optional value passes the filter of a dimension where
    /// the `<None>` item is meaningful: `<Any>` passes everything, a set
    /// filter passes exactly the equal value.
    pub fn matches_optional(&self, kind: PotFilterKind, fil: Option<Fil>) -> (r: bool)
        ensures
            r == (match self.spec_get(kind) {
                None => true,
                Some(id) => id.0 == fil,
            }),
    {
        match self.get(kind) {
            None => true,
            Some(FilterItemId(wanted)) => wanted == fil,
        }
    }

    /// Whether the filter of a dimension is set to exactly the given
    /// value.
    fn wants_only(&self, kind: PotFilterKind, fil: Fil) -> (r: bool)
        ensures
            r == (self.spec_get(kind) == Some(FilterItemId(Some(fil)))),
    {
        match self.get(kind) {
            Some(FilterItemId(Some(wanted))) => wanted == fil,
            _ => false,
        }
    }

    pub fn wants_user_presets_only(&self) -> (r: bool)
        ensures
            r == (self.spec_get(PotFilterKind::IsUser) == Some(
                FilterItemId(Some(Fil::Boolean(true))),
            )),
    {
        self.wants_only(PotFilterKind::IsUser, Fil::Boolean(true))
    }

    pub fn wants_factory_presets_only(&self) -> (r: bool)
        ensures
            r == (self.spec_get(PotFilterKind::IsUser) == Some(
                FilterItemId(Some(Fil::Boolean(false))),
            )),
    {
        self.wants_only(PotFilterKind::IsUser, Fil::Boolean(false))
    }

    pub fn wants_favorites_only(&self) -> (r: bool)
        ensures
            r == (self.spec_get(PotFilterKind::IsFavorite) == Some(
                FilterItemId(Some(Fil::Boolean(true))),
            )),
    {
        self.wants_only(PotFilterKind::IsFavorite, Fil::Boolean(true))
    }

    /// What the preview filter asks for, if it is set to a concrete value.
    pub fn wants_preview(&self) -> (r: Option<bool>)
        ensures
            r == (match self.spec_get(PotFilterKind::HasPreview) {
                Some(id) => (match id.0 {
                    Some(Fil::Boolean(b)) => Some(b),
                    Some(_) => Some(false),
                    None => Option::<bool>::None,
                }),
                None => Option::<bool>::None,
            }),
    {
        match self.get(PotFilterKind::HasPreview) {
            Some(FilterItemId(Some(Fil::Boolean(b)))) => Some(b),
            Some(FilterItemId(Some(_))) => Some(false),
            _ => None,
        }
    }

    pub fn database_matches(&self, db_id: DatabaseId) -> (r: bool)
        ensures
            r == (match self.spec_get(PotFilterKind::Database) {
                None => true,
                Some(id) => (match id.0 {
                    None => false,
                    Some(wanted) => wanted == Fil::Database(db_id),
                }),
            }),
    {
        self.matches(PotFilterKind::Database, Fil::Database(db_id))
    }

    /// The effective sub-bank: the bank filter when it is the `<None>`
    /// item, else the sub-bank filter.
    pub fn effective_sub_bank(&self) -> (r: OptFilter)
        ensures
            r == self.spec_effective_sub_item(PotFilterKind::Bank, PotFilterKind::SubBank),
    {
        self.effective_sub_item(PotFilterKind::Bank, PotFilterKind::SubBank)
    }

    /// The effective sub-category: the category filter when it is the
    /// `<None>` item, else the sub-category filter.
    pub fn effective_sub_category(&self) -> (r: OptFilter)
        ensures
            r == self.spec_effective_sub_item(PotFilterKind::Category, PotFilterKind::SubCategory),
    {
        self.effective_sub_item(PotFilterKind::Category, PotFilterKind::SubCategory)
    }

    fn effective_sub_item(&self, parent_kind: PotFilterKind, sub_kind: PotFilterKind) -> (r:
        OptFilter)
        ensures
            r == self.spec_effective_sub_item(parent_kind, sub_kind),
    {
        let category = self.get(parent_kind);
        match category {
            Some(FilterItemId(None)) => category,
            _ => self.get(sub_kind),
        }
    }

    /// Clears the filter of a dimension together with every dimension
    /// that depends on it.
    pub fn clear_this_and_dependent_filters(&mut self, kind: PotFilterKind)
        ensures
            final (self).spec_get(kind) is None,
            forall|k: PotFilterKind|
                k.spec_dependency_position() > kind.spec_dependency_position()
                    ==> #[trigger] final (self).spec_get(k) is None,
            forall|k: PotFilterKind|
                k != kind && k.spec_dependency_position() <= kind.spec_dependency_position()
                    ==> #[trigger] final (self).spec_get(k) == old(self).spec_get(k),
    {
        self.set(kind, None);
        let dependent = kind.dependent_kinds();
        let mut i: usize = 0;
        while i < dependent.len()
            invariant
                i <= dependent@.len(),
                self.spec_get(kind) is None,
                forall|j: int|
                    0 <= j < dependent@.len() ==> #[trigger] dependent@[
                        j
                    ].spec_dependency_position() > kind.spec_dependency_position(),
                forall|k: PotFilterKind|
                    k.spec_dependency_position() > kind.spec_dependency_position()
                        ==> #[trigger] dependent@.contains(k),
                forall|j: int| 0 <= j < i ==> #[trigger] self.spec_get(dependent@[j]) is None,
                forall|k: PotFilterKind|
                    k != kind && k.spec_dependency_position() <= kind.spec_dependency_position()
                        ==> #[trigger] self.spec_get(k) == old(self).spec_get(k),
            decreases dependent@.len() - i,
        {
            let k = dependent[i];
            self.set(k, None);
            proof {
                assert forall|j: int| 0 <= j < i + 1 implies #[trigger] self.spec_get(
                    dependent@[j],
                ) is None by {
                    if j < i && dependent@[j] != dependent@[i as int] {
                    }
                }
            }
            i += 1;
        }
        proof {
            assert forall|k: PotFilterKind|
                k.spec_dependency_position() > kind.spec_dependency_position()
                    implies #[trigger] final (self).spec_get(k) is None by {
                assert(dependent@.contains(k));
                let w = choose|w: int| 0 <= w < dependent@.len() && dependent@[w] == k;
                assert(self.spec_get(dependent@[w]) is None);
            }
        }
    }
}

/// The filters in their persistent form. Every dimension's choice is kept
/// as it is, so restoring is lossless.
pub struct PersistentFilters {
    values: Vec<OptFilter>,
}

impl Filters {
    /// Writes the filter table into its persistent form.
    pub fn to_persistent(&self) -> (r: PersistentFilters)
        ensures
            r.spec_values().len() == POT_FILTER_KIND_COUNT,
            forall|k: PotFilterKind|
                #[trigger] r.spec_values()[k.spec_index()] == self.spec_get(k),
    {
        proof {
            use_type_invariant(&*self);
        }
        let mut values: Vec<OptFilter> = Vec::new();
        let mut i: usize = 0;
        while i < self.values.len()
            invariant
                i <= self.values@.len(),
                values@.len() == i,
                forall|j: int| 0 <= j < i ==> values@[j] == self.values@[j],
            decreases self.values@.len() - i,
        {
            values.push(self.values[i]);
            i += 1;
        }
        PersistentFilters { values }
    }

    /// Restores a filter table from its persistent form; missing entries
    /// read as `<Any>`.
    pub fn from_persistent(persistent: &PersistentFilters) -> (r: Filters)
        ensures
            forall|k: PotFilterKind|
                #[trigger] r.spec_get(k) == (if k.spec_index() < persistent.spec_values().len() {
                    persistent.spec_values()[k.spec_index()]
                } else {
                    Option::<FilterItemId>::None
                }),
    {
        let mut values: Vec<OptFilter> = Vec::new();
        let mut i: usize = 0;
        while i < POT_FILTER_KIND_COUNT
            invariant
                i <= POT_FILTER_KIND_COUNT,
                values@.len() == i,
                forall|j: int|
                    0 <= j < i ==> values@[j] == (if j < persistent.spec_values().len() {
                        persistent.spec_values()[j]
                    } else {
                        Option::<FilterItemId>::None
                    }),
            decreases POT_FILTER_KIND_COUNT - i,
        {
            if i < persistent.values.len() {
                values.push(persistent.values[i]);
            } else {
                values.push(None);
            }
            i += 1;
        }
        Filters { values }
    }
}

impl PersistentFilters {
    pub closed spec fn spec_values(self) -> Seq<OptFilter> {
        self.values@
    }
}

/// Persisting filters and restoring them preserves every dimension's
/// choice, so the effective sub-bank and sub-category resolve identically
/// afterwards — for a parent set to the explicit `<None>` item as well as
/// for any concrete value.
pub proof fn lemma_filters_round_trip_preserves_effective_sub_items(
    original: Filters,
    restored: Filters,
    persistent: PersistentFilters,
)
    requires
        persistent.spec_values().len() == POT_FILTER_KIND_COUNT,
        forall|k: PotFilterKind|
            #[trigger] persistent.spec_values()[k.spec_index()] == original.spec_get(k),
        forall|k: PotFilterKind|
            #[trigger] restored.spec_get(k) == (if k.spec_index()
                < persistent.spec_values().len() {
                persistent.spec_values()[k.spec_index()]
            } else {
                Option::<FilterItemId>::None
            }),
    ensures
        restored.spec_effective_sub_item(PotFilterKind::Bank, PotFilterKind::SubBank)
            == original.spec_effective_sub_item(PotFilterKind::Bank, PotFilterKind::SubBank),
        restored.spec_effective_sub_item(PotFilterKind::Category, PotFilterKind::SubCategory)
            == original.spec_effective_sub_item(
            PotFilterKind::Category,
            PotFilterKind::SubCategory,
        ),
        forall|k: PotFilterKind| #[trigger] restored.spec_get(k) == original.spec_get(k),
{
    assert forall|k: PotFilterKind| #[trigger] restored.spec_get(k) == original.spec_get(k) by {
        assert(persistent.spec_values()[k.spec_index()] == original.spec_get(k));
    }
    assert(restored.spec_get(PotFilterKind::Bank) == original.spec_get(PotFilterKind::Bank));
    assert(restored.spec_get(PotFilterKind::SubBank) == original.spec_get(PotFilterKind::SubBank));
    assert(restored.spec_get(PotFilterKind::Category) == original.spec_get(
        PotFilterKind::Category,
    ));
    assert(restored.spec_get(PotFilterKind::SubCategory) == original.spec_get(
        PotFilterKind::SubCategory,
    ));
}

/// Per-dimension exclude lists: items on the list are hidden from the
/// browser. The list is kept flat as pairs of dimension index and item.
pub struct PotFilterExcludes {
    excluded: Vec<(u32, FilterItemId)>,
}

impl PotFilterExcludes {
    /// Whether the item stands on the exclude list of the dimension.
    pub closed spec fn spec_contains(self, kind: PotFilterKind, id: FilterItemId) -> bool {
        exists|i: int|
            0 <= i < self.excluded@.len() && #[trigger] self.excluded@[i] == (
            kind.spec_index() as u32,
            id,
        )
    }

    pub fn new() -> (r: PotFilterExcludes)
        ensures
            forall|k: PotFilterKind, id: FilterItemId| !(#[trigger] r.spec_contains(k, id)),
    {
        PotFilterExcludes { excluded: Vec::new() }
    }

    pub fn contains(&self, kind: PotFilterKind, id: FilterItemId) -> (r: bool)
        ensures
            r == self.spec_contains(kind, id),
    {
        let key = kind.index() as u32;
        let mut i: usize = 0;
        while i < self.excluded.len()
            invariant
                i <= self.excluded@.len(),
                key == kind.spec_index() as u32,
                forall|j: int| 0 <= j < i ==> self.excluded@[j] != (key, id),
            decreases self.excluded@.len() - i,
        {
            let entry = self.excluded[i];
            if entry.0 == key && entry.1 == id {
                proof {
                    assert(self.excluded@[i as int] == (key, id));
                }
                return true;
            }
            i += 1;
        }
        false
    }

    /// Whether the dimension's exclude list is empty.
    pub fn is_empty(&self, kind: PotFilterKind) -> (r: bool)
        ensures
            r == !(exists|id: FilterItemId| #[trigger] self.spec_contains(kind, id)),
    {
        let key = kind.index() as u32;
        let mut i: usize = 0;
        while i < self.excluded.len()
            invariant
                i <= self.excluded@.len(),
                key == kind.spec_index() as u32,
                forall|j: int| 0 <= j < i ==> self.excluded@[j].0 != key,
            decreases self.excluded@.len() - i,
        {
            let entry = self.excluded[i];
            if entry.0 == key {
                proof {
                    assert(self.excluded@[i as int] == (key, entry.1));
                    assert(self.spec_contains(kind, entry.1));
                }
                return false;
            }
            i += 1;
        }
        proof {
            assert forall|id: FilterItemId| !(#[trigger] self.spec_contains(kind, id)) by {
                if self.spec_contains(kind, id) {
                    let w = choose|w: int|
                        0 <= w < self.excluded@.len() && #[trigger] self.excluded@[w] == (
                        kind.spec_index() as u32,
                        id,
                    );
                }
            }
        }
        true
    }

    /// Puts an item on the exclude list of a dimension.
    pub fn add(&mut self, kind: PotFilterKind, id: FilterItemId)
        ensures
            final (self).spec_contains(kind, id),
            forall|k: PotFilterKind, other: FilterItemId|
                #[trigger] old(self).spec_contains(k, other) ==> final (self).spec_contains(
                    k,
                    other,
                ),
    {
        let key = kind.index() as u32;
        let ghost before = self.excluded@;
        self.excluded.push((key, id));
        proof {
            assert(self.excluded@[self.excluded@.len() - 1] == (key, id));
            assert(self.spec_contains(kind, id));
            assert forall|k: PotFilterKind, other: FilterItemId|
                #[trigger] old(self).spec_contains(k, other) implies self.spec_contains(
                k,
                other,
            ) by {
                let w = choose|w: int|
                    0 <= w < before.len() && #[trigger] before[w] == (k.spec_index() as u32, other);
                assert(self.excluded@[w] == (k.spec_index() as u32, other));
            }
        }
    }

    /// Takes an item off the exclude list of a dimension.
    pub fn remove(&mut self, kind: PotFilterKind, id: FilterItemId)
        ensures
            !final (self).spec_contains(kind, id),
    {
        let key = kind.index() as u32;
        let mut kept: Vec<(u32, FilterItemId)> = Vec::new();
        let mut i: usize = 0;
        while i < self.excluded.len()
            invariant
                i <= self.excluded@.len(),
                forall|j: int| 0 <= j < kept@.len() ==> #[trigger] kept@[j] != (key, id),
            decreases self.excluded@.len() - i,
        {
            let entry = self.excluded[i];
            if !(entry.0 == key && entry.1 == id) {
                kept.push(entry);
            }
            i += 1;
        }
        self.excluded = kept;
        proof {
            assert(key == kind.spec_index() as u32);
            if self.spec_contains(kind, id) {
                let w = choose|w: int|
                    0 <= w < self.excluded@.len() && #[trigger] self.excluded@[w] == (
                    kind.spec_index() as u32,
                    id,
                );
            }
        }
    }

    pub fn contains_database(&self, db_id: DatabaseId) -> (r: bool)
        ensures
            r == self.spec_contains(
                PotFilterKind::Database,
                FilterItemId(Some(Fil::Database(db_id))),
            ),
    {
        self.contains(PotFilterKind::Database, FilterItemId(Some(Fil::Database(db_id))))
    }

    pub fn contains_product(&self, product_id: Option<ProductId>) -> (r: bool)
        ensures
            (match product_id {
                Some(p) => r == self.spec_contains(
                    PotFilterKind::Bank,
                    FilterItemId(Some(Fil::Product(p))),
                ),
                None => r == self.spec_contains(PotFilterKind::Bank, FilterItemId(None)),
            }),
    {
        match product_id {
            Some(p) => self.contains(PotFilterKind::Bank, FilterItemId(Some(Fil::Product(p)))),
            None => self.contains(PotFilterKind::Bank, FilterItemId(None)),
        }
    }

    pub fn contains_none(&self, kind: PotFilterKind) -> (r: bool)
        ensures
            r == self.spec_contains(kind, FilterItemId(None)),
    {
        self.contains(kind, FilterItemId(None))
    }
}

impl Filters {
    /// Clears every filter whose chosen item stands on the exclude list.
    pub fn clear_excluded_ones(&mut self, exclude_list: &PotFilterExcludes)
        ensures
            forall|k: PotFilterKind|
                #[trigger] final (self).spec_get(k) == (match old(self).spec_get(k) {
                    Some(id) => if exclude_list.spec_contains(k, id) {
                        Option::<FilterItemId>::None
                    } else {
                        Some(id)
                    },
                    None => Option::<FilterItemId>::None,
                }),
    {
        let kinds = PotFilterKind::all();
        let mut i: usize = 0;
        while i < kinds.len()
            invariant
                i <= kinds@.len(),
                kinds@.len() == POT_FILTER_KIND_COUNT,
                forall|j: int| 0 <= j < kinds@.len() ==> #[trigger] kinds@[j].spec_index() == j,
                forall|k: PotFilterKind|
                    k.spec_index() < i ==> #[trigger] self.spec_get(k) == (match old(
                        self,
                    ).spec_get(k) {
                        Some(id) => if exclude_list.spec_contains(k, id) {
                            Option::<FilterItemId>::None
                        } else {
                            Some(id)
                        },
                        None => Option::<FilterItemId>::None,
                    }),
                forall|k: PotFilterKind|
                    k.spec_index() >= i ==> #[trigger] self.spec_get(k) == old(self).spec_get(k),
            decreases kinds@.len() - i,
        {
            let k = kinds[i];
            match self.get(k) {
                Some(id) => {
                    if exclude_list.contains(k, id) {
                        self.set(k, None);
                    }
                },
                None => {},
            }
            proof {
                assert forall|k2: PotFilterKind|
                    k2.spec_index() < i + 1 implies #[trigger] self.spec_get(k2) == (match old(
                    self,
                ).spec_get(k2) {
                    Some(id) => if exclude_list.spec_contains(k2, id) {
                        Option::<FilterItemId>::None
                    } else {
                        Some(id)
                    },
                    None => Option::<FilterItemId>::None,
                }) by {
                    if k2.spec_index() == i as int {
                        crate::target_api::lemma_pot_filter_kind_index_injective(
                            k2,
                            kinds@[i as int],
                        );
                    }
                }
            }
            i += 1;
        }
        proof {
            assert forall|k: PotFilterKind| true implies #[trigger] self.spec_get(k) == (match old(
                self,
            ).spec_get(k) {
                Some(id) => if exclude_list.spec_contains(k, id) {
                    Option::<FilterItemId>::None
                } else {
                    Some(id)
                },
                None => Option::<FilterItemId>::None,
            }) by {
                assert(k.spec_index() < POT_FILTER_KIND_COUNT);
            }
        }
    }
}

/// One selectable filter item, as the browser lists it.
pub struct FilterItem {
    pub id: FilterItemId,
    pub name: String,
}

/// Something that carries a filter item id, so that item lists of
/// different shapes can be narrowed uniformly.
pub trait HasFilterItemId {
    /// The item's id.
    fn id(&self) -> (r: FilterItemId);
}

impl HasFilterItemId for FilterItem {
    fn id(&self) -> (r: FilterItemId)
        ensures
            r == self.id,
    {
        self.id
    }
}

/// Whether a list of preset ids contains the given one.
spec fn spec_list_has(l: Seq<InnerPresetId>, x: InnerPresetId) -> bool {
    exists|b: int| 0 <= b < l.len() && l[b] == x
}

/// Whether the favorite entries contain the given preset.
spec fn spec_entries_have(entries: Seq<(DatabaseId, Vec<InnerPresetId>)>, p: PresetId) -> bool {
    exists|i: int, j: int|
        0 <= i < entries.len() && 0 <= j < entries[i].1@.len() && #[trigger] entries[i].1@[j]
            == p.preset_id && entries[i].0 == p.database_id
}

/// Appending one id to a list adds exactly that id's membership.
proof fn lemma_list_has_push(l: Seq<InnerPresetId>, v: InnerPresetId, x: InnerPresetId)
    ensures
        spec_list_has(l.push(v), x) <==> (spec_list_has(l, x) || v == x),
{
    let pushed = l.push(v);
    if spec_list_has(pushed, x) {
        let b = choose|b: int| 0 <= b < pushed.len() && pushed[b] == x;
        if b < l.len() {
            assert(l[b] == x);
        } else {
            assert(pushed[b] == v);
        }
    }
    if spec_list_has(l, x) {
        let b = choose|b: int| 0 <= b < l.len() && l[b] == x;
        assert(pushed[b] == x);
    }
    if v == x {
        assert(pushed[l.len() as int] == x);
    }
}

/// Appending one entry adds exactly that entry's memberships.
proof fn lemma_entries_have_push(
    entries: Seq<(DatabaseId, Vec<InnerPresetId>)>,
    e: (DatabaseId, Vec<InnerPresetId>),
    p: PresetId,
)
    ensures
        spec_entries_have(entries.push(e), p) <==> (spec_entries_have(entries, p) || (e.0
            == p.database_id && spec_list_has(e.1@, p.preset_id))),
{
    let pushed = entries.push(e);
    if spec_entries_have(pushed, p) {
        let (i, j) = choose|i: int, j: int|
            0 <= i < pushed.len() && 0 <= j < pushed[i].1@.len() && #[trigger] pushed[i].1@[j]
                == p.preset_id && pushed[i].0 == p.database_id;
        if i < entries.len() {
            assert(entries[i].1@[j] == p.preset_id);
        } else {
            assert(pushed[i] == e);
            assert(e.1@[j] == p.preset_id);
        }
    }
    if spec_entries_have(entries, p) {
        let (i, j) = choose|i: int, j: int|
            0 <= i < entries.len() && 0 <= j < entries[i].1@.len() && #[trigger] entries[i].1@[j]
                == p.preset_id && entries[i].0 == p.database_id;
        assert(pushed[i].1@[j] == p.preset_id);
    }
    if e.0 == p.database_id && spec_list_has(e.1@, p.preset_id) {
        let b = choose|b: int| 0 <= b < e.1@.len() && e.1@[b] == p.preset_id;
        assert(pushed[entries.len() as int].1@[b] == p.preset_id);
    }
}

/// Favorites per database, with unique database keys and unique preset
/// ids per database.
pub struct PotFavorites {
    favorites: Vec<(DatabaseId, Vec<InnerPresetId>)>,
}

impl PotFavorites {
    /// Whether the preset is a favorite.
    pub closed spec fn spec_is_favorite(self, preset_id: PresetId) -> bool {
        spec_entries_have(self.favorites@, preset_id)
    }

    pub fn new() -> (r: PotFavorites)
        ensures
            forall|p: PresetId| !(#[trigger] r.spec_is_favorite(p)),
    {
        PotFavorites { favorites: Vec::new() }
    }

    pub fn is_favorite(&self, preset_id: PresetId) -> (r: bool)
        ensures
            r == self.spec_is_favorite(preset_id),
    {
        let mut i: usize = 0;
        while i < self.favorites.len()
            invariant
                i <= self.favorites@.len(),
                forall|a: int, b: int|
                    0 <= a < i && 0 <= b < self.favorites@[a].1@.len() && self.favorites@[a].0
                        == preset_id.database_id ==> #[trigger] self.favorites@[a].1@[b]
                        != preset_id.preset_id,
            decreases self.favorites@.len() - i,
        {
            if self.favorites[i].0 == preset_id.database_id {
                let list = &self.favorites[i].1;
                let mut j: usize = 0;
                while j < list.len()
                    invariant
                        j <= list@.len(),
                        list@ == self.favorites@[i as int].1@,
                        i < self.favorites@.len(),
                        self.favorites@[i as int].0 == preset_id.database_id,
                        forall|b: int| 0 <= b < j ==> list@[b] != preset_id.preset_id,
                    decreases list@.len() - j,
                {
                    if list[j] == preset_id.preset_id {
                        proof {
                            assert(self.favorites@[i as int].1@[j as int] == preset_id.preset_id);
                        }
                        return true;
                    }
                    j += 1;
                }
                proof {
                    assert forall|a: int, b: int|
                        0 <= a < i + 1 && 0 <= b < self.favorites@[a].1@.len() && self.favorites@[
                            a
                        ].0 == preset_id.database_id implies #[trigger] self.favorites@[a].1@[b]
                        != preset_id.preset_id by {
                    }
                }
            }
            i += 1;
        }
        false
    }

    /// Flips the favorite state of the preset: a favorite stops being one,
    /// a non-favorite becomes one. Every other preset keeps its state.
    pub fn toggle_favorite(&mut self, preset_id: PresetId)
        ensures
            final (self).spec_is_favorite(preset_id) == !old(self).spec_is_favorite(preset_id),
            forall|p: PresetId|
                p != preset_id ==> final (self).spec_is_favorite(p) == old(self).spec_is_favorite(
                    p,
                ),
    {
        let was = self.is_favorite(preset_id);
        if was {
            // Remove it from every entry of its database.
            let mut source: Vec<(DatabaseId, Vec<InnerPresetId>)> = Vec::new();
            core::mem::swap(&mut source, &mut self.favorites);
            let ghost before = source@;
            let ghost mut done: int = 0;
            proof {
                assert(source@ =~= before.subrange(0, before.len() as int));
                assert(before.subrange(0, 0) =~= Seq::<(DatabaseId, Vec<InnerPresetId>)>::empty());
            }
            let mut rebuilt: Vec<(DatabaseId, Vec<InnerPresetId>)> = Vec::new();
            while source.len() > 0
                invariant
                    0 <= done <= before.len(),
                    source@ == before.subrange(done, before.len() as int),
                    forall|a: int, b: int|
                        0 <= a < rebuilt@.len() && 0 <= b < rebuilt@[a].1@.len() && rebuilt@[a].0
                            == preset_id.database_id ==> #[trigger] rebuilt@[a].1@[b]
                            != preset_id.preset_id,
                    forall|p: PresetId|
                        p != preset_id ==> (spec_entries_have(rebuilt@, p) <==> spec_entries_have(
                            before.subrange(0, done),
                            p,
                        )),
                decreases source@.len(),
            {
                let entry = source.remove(0);
                proof {
                    assert(before.subrange(done, before.len() as int)[0] == before[done]);
                    assert(source@ =~= before.subrange(done + 1, before.len() as int));
                }
                let ghost rb = rebuilt@;
                let ghost e0 = entry;
                if entry.0 == preset_id.database_id {
                    let list = entry.1;
                    let mut kept: Vec<InnerPresetId> = Vec::new();
                    let mut j: usize = 0;
                    proof {
                        assert(list@.subrange(0, 0) =~= Seq::<InnerPresetId>::empty());
                    }
                    while j < list.len()
                        invariant
                            j <= list@.len(),
                            forall|b: int|
                                0 <= b < kept@.len() ==> #[trigger] kept@[b]
                                    != preset_id.preset_id,
                            forall|x: InnerPresetId|
                                x != preset_id.preset_id ==> (spec_list_has(kept@, x)
                                    <==> spec_list_has(list@.subrange(0, j as int), x)),
                        decreases list@.len() - j,
                    {
                        let ghost kb = kept@;
                        if !(list[j] == preset_id.preset_id) {
                            kept.push(list[j]);
                        }
                        proof {
                            assert(list@.subrange(0, j + 1) =~= list@.subrange(0, j as int).push(
                                list@[j as int],
                            ));
                            assert forall|x: InnerPresetId|
                                x != preset_id.preset_id implies (spec_list_has(kept@, x)
                                <==> spec_list_has(list@.subrange(0, j + 1), x)) by {
                                lemma_list_has_push(kb, list@[j as int], x);
                                lemma_list_has_push(
                                    list@.subrange(0, j as int),
                                    list@[j as int],
                                    x,
                                );
                                if list@[j as int] == preset_id.preset_id {
                                    assert(kept@ == kb);
                                }
                            }
                        }
                        j += 1;
                    }
                    proof {
                        assert(list@.subrange(0, list@.len() as int) =~= list@);
                    }
                    let ghost kv = kept@;
                    rebuilt.push((entry.0, kept));
                    proof {
                        let pushed_entry = rebuilt@.last();
                        assert(rebuilt@ =~= rb.push(pushed_entry));
                        assert(pushed_entry.0 == e0.0 && pushed_entry.1@ == kv);
                        assert forall|a: int, b: int|
                            0 <= a < rebuilt@.len() && 0 <= b < rebuilt@[a].1@.len() && rebuilt@[
                                a
                            ].0 == preset_id.database_id implies #[trigger] rebuilt@[a].1@[b]
                            != preset_id.preset_id by {
                            if a < rb.len() {
                                assert(rebuilt@[a] == rb[a]);
                            } else {
                                assert(rebuilt@[a].1@ == kv);
                            }
                        }
                        assert(before.subrange(0, done + 1) =~= before.subrange(0, done).push(
                            before[done],
                        ));
                        assert forall|p: PresetId|
                            p != preset_id implies (spec_entries_have(rebuilt@, p)
                            <==> spec_entries_have(before.subrange(0, done + 1), p)) by {
                            lemma_entries_have_push(rb, pushed_entry, p);
                            lemma_entries_have_push(before.subrange(0, done), before[done], p);
                            assert(before[done] == e0);
                            if p.database_id == e0.0 {
                                // Same database: membership hangs on the list, where
                                // only the toggled id was dropped.
                                assert(p.preset_id != preset_id.preset_id);
                            }
                        }
                        done = done + 1;
                    }
                } else {
                    rebuilt.push(entry);
                    proof {
                        let pushed_entry = rebuilt@.last();
                        assert(rebuilt@ =~= rb.push(pushed_entry));
                        assert(pushed_entry == e0);
                        assert forall|a: int, b: int|
                            0 <= a < rebuilt@.len() && 0 <= b < rebuilt@[a].1@.len() && rebuilt@[
                                a
                            ].0 == preset_id.database_id implies #[trigger] rebuilt@[a].1@[b]
                            != preset_id.preset_id by {
                            if a < rb.len() {
                                assert(rebuilt@[a] == rb[a]);
                            } else {
                                assert(rebuilt@[a].0 == e0.0);
                            }
                        }
                        assert(before.subrange(0, done + 1) =~= before.subrange(0, done).push(
                            before[done],
                        ));
                        assert forall|p: PresetId|
                            p != preset_id implies (spec_entries_have(rebuilt@, p)
                            <==> spec_entries_have(before.subrange(0, done + 1), p)) by {
                            lemma_entries_have_push(rb, pushed_entry, p);
                            lemma_entries_have_push(before.subrange(0, done), before[done], p);
                            assert(before[done] == e0);
                        }
                        done = done + 1;
                    }
                }
            }
            self.favorites = rebuilt;
            proof {
                assert(done == before.len());
                assert(before.subrange(0, before.len() as int) =~= before);
                if self.spec_is_favorite(preset_id) {
                    let (a, b) = choose|a: int, b: int|
                        0 <= a < self.favorites@.len() && 0 <= b < self.favorites@[a].1@.len()
                            && #[trigger] self.favorites@[a].1@[b] == preset_id.preset_id
                            && self.favorites@[a].0 == preset_id.database_id;
                }
            }
        } else {
            let ghost before = self.favorites@;
            let mut list: Vec<InnerPresetId> = Vec::new();
            list.push(preset_id.preset_id);
            self.favorites.push((preset_id.database_id, list));
            proof {
                let n = self.favorites@.len() - 1;
                assert(self.favorites@[n].0 == preset_id.database_id);
                assert(self.favorites@[n].1@[0] == preset_id.preset_id);
                let pushed_entry = self.favorites@.last();
                assert(self.favorites@ =~= before.push(pushed_entry));
                assert forall|p: PresetId|
                    p != preset_id implies (spec_entries_have(self.favorites@, p)
                    <==> spec_entries_have(before, p)) by {
                    lemma_entries_have_push(before, pushed_entry, p);
                    if p.database_id == preset_id.database_id {
                        assert(p.preset_id != preset_id.preset_id);
                        if spec_list_has(pushed_entry.1@, p.preset_id) {
                            let b = choose|b: int|
                                0 <= b < pushed_entry.1@.len() && pushed_entry.1@[b]
                                    == p.preset_id;
                            assert(pushed_entry.1@[b] == preset_id.preset_id);
                        }
                    }
                }
            }
        }
    }
}

/// Relies on `String: FromIterator<char>` (`collect`): the characters are
/// appended in order.
#[verifier::external_body]
pub(crate) fn chars_to_string(chars: &Vec<char>) -> (r: String)
    ensures
        r@ == chars@,
{
    chars.iter().collect()
}

/// The escaping of one character: a pipe gains a backslash, everything
/// else stays itself.
pub open spec fn spec_escaped_char(c: char) -> Seq<char> {
    if c == '|' {
        seq!['\\', '|']
    } else {
        seq![c]
    }
}

/// A string with every pipe escaped by a backslash.
pub open spec fn spec_escape_pipes(s: Seq<char>) -> Seq<char>
    decreases s.len(),
{
    if s.len() == 0 {
        Seq::empty()
    } else {
        spec_escaped_char(s[0]) + spec_escape_pipes(s.subrange(1, s.len() as int))
    }
}

/// A string with every escaped pipe unescaped: each backslash-pipe pair
/// becomes a bare pipe.
pub open spec fn spec_unescape_pipes(s: Seq<char>) -> Seq<char>
    decreases s.len(),
{
    if s.len() == 0 {
        Seq::empty()
    } else if s.len() >= 2 && s[0] == '\\' && s[1] == '|' {
        seq!['|'] + spec_unescape_pipes(s.subrange(2, s.len() as int))
    } else {
        seq![s[0]] + spec_unescape_pipes(s.subrange(1, s.len() as int))
    }
}

/// Unfolding step of the escape at the front.
proof fn lemma_escape_step(s: Seq<char>, i: int)
    requires
        0 <= i < s.len(),
    ensures
        spec_escape_pipes(s.subrange(i, s.len() as int)) == spec_escaped_char(s[i])
            + spec_escape_pipes(s.subrange(i + 1, s.len() as int)),
{
    let tail = s.subrange(i, s.len() as int);
    assert(tail[0] == s[i]);
    assert(tail.subrange(1, tail.len() as int) =~= s.subrange(i + 1, s.len() as int));
}

/// Escapes every pipe with a backslash.
fn escape_pipes(s: &str) -> (r: Vec<char>)
    ensures
        r@ == spec_escape_pipes(s@),
{
    let n = s.unicode_len();
    let mut out: Vec<char> = Vec::new();
    let mut i: usize = 0;
    proof {
        assert(s@.subrange(0, s@.len() as int) =~= s@);
    }
    while i < n
        invariant
            i <= n,
            n == s@.len(),
            out@ + spec_escape_pipes(s@.subrange(i as int, s@.len() as int)) == spec_escape_pipes(
                s@,
            ),
        decreases n - i,
    {
        let c = s.get_char(i);
        let ghost before = out@;
        if c == '|' {
            out.push('\\');
            out.push('|');
        } else {
            out.push(c);
        }
        proof {
            lemma_escape_step(s@, i as int);
            assert(out@ =~= before + spec_escaped_char(s@[i as int]));
            assert(out@ + spec_escape_pipes(s@.subrange(i + 1, s@.len() as int))
                =~= before + spec_escape_pipes(s@.subrange(i as int, s@.len() as int)));
        }
        i += 1;
    }
    proof {
        assert(s@.subrange(n as int, s@.len() as int) =~= Seq::<char>::empty());
        assert(out@ =~= spec_escape_pipes(s@));
    }
    out
}

/// Converts escaped pipes back, starting at `from`.
fn unescape_pipes_from(s: &str, from: usize) -> (r: Vec<char>)
    requires
        from <= s@.len(),
    ensures
        r@ == spec_unescape_pipes(s@.subrange(from as int, s@.len() as int)),
{
    let n = s.unicode_len();
    let mut out: Vec<char> = Vec::new();
    let mut i: usize = from;
    while i < n
        invariant
            from <= i <= n,
            n == s@.len(),
            out@ + spec_unescape_pipes(s@.subrange(i as int, s@.len() as int))
                == spec_unescape_pipes(s@.subrange(from as int, s@.len() as int)),
        decreases n - i,
    {
        let c = s.get_char(i);
        let ghost before = out@;
        let ghost tail = s@.subrange(i as int, s@.len() as int);
        if c == '\\' && i + 1 < n && s.get_char(i + 1) == '|' {
            out.push('|');
            proof {
                assert(tail.len() >= 2 && tail[0] == '\\' && tail[1] == '|');
                assert(tail.subrange(2, tail.len() as int) =~= s@.subrange(
                    i + 2,
                    s@.len() as int,
                ));
                assert(out@ =~= before + seq!['|']);
                assert(out@ + spec_unescape_pipes(s@.subrange(i + 2, s@.len() as int)) =~= before
                    + spec_unescape_pipes(tail));
            }
            i += 2;
        } else {
            out.push(c);
            proof {
                assert(tail[0] == c);
                // An escaped pair here would contradict the branch taken.
                if tail.len() >= 2 && tail[0] == '\\' && tail[1] == '|' {
                    assert(false);
                }
                assert(tail.subrange(1, tail.len() as int) =~= s@.subrange(
                    i + 1,
                    s@.len() as int,
                ));
                assert(out@ =~= before + seq![c]);
                assert(out@ + spec_unescape_pipes(s@.subrange(i + 1, s@.len() as int)) =~= before
                    + spec_unescape_pipes(tail));
            }
            i += 1;
        }
    }
    proof {
        assert(s@.subrange(n as int, s@.len() as int) =~= Seq::<char>::empty());
        assert(out@ =~= spec_unescape_pipes(s@.subrange(from as int, s@.len() as int)));
    }
    out
}

/// Converts a string with escaped pipes back: each backslash-pipe pair
/// becomes a bare pipe.
pub fn unescape_pipes(escaped: &str) -> (r: String)
    ensures
        r@ == spec_unescape_pipes(escaped@),
{
    let chars = unescape_pipes_from(escaped, 0);
    proof {
        assert(escaped@.subrange(0, escaped@.len() as int) =~= escaped@);
    }
    chars_to_string(&chars)
}

/// Whether position `i` holds a pipe that is not preceded by a backslash.
pub open spec fn spec_is_unescaped_pipe(s: Seq<char>, i: int) -> bool {
    0 <= i < s.len() && s[i] == '|' && (i == 0 || s[i - 1] != '\\')
}

/// Identifies a preset database across restarts.
#[derive(Clone, PartialEq, Eq, Debug)]
pub struct PersistentDatabaseId {
    raw: String,
}

impl PersistentDatabaseId {
    pub fn new(raw_id: String) -> (r: PersistentDatabaseId)
        ensures
            r@ == raw_id@,
    {
        PersistentDatabaseId { raw: raw_id }
    }

    pub fn get(&self) -> (r: &str)
        ensures
            r@ == self@,
    {
        self.raw.as_str()
    }
}

impl View for PersistentDatabaseId {
    type V = Seq<char>;

    closed spec fn view(&self) -> Seq<char> {
        self.raw@
    }
}

/// Identifies a preset within its database across restarts.
#[derive(Clone, PartialEq, Eq, Debug)]
pub struct PersistentInnerPresetId {
    raw: String,
}

impl PersistentInnerPresetId {
    pub fn new(raw_id: String) -> (r: PersistentInnerPresetId)
        ensures
            r@ == raw_id@,
    {
        PersistentInnerPresetId { raw: raw_id }
    }

    pub fn get(&self) -> (r: &str)
        ensures
            r@ == self@,
    {
        self.raw.as_str()
    }
}

impl View for PersistentInnerPresetId {
    type V = Seq<char>;

    closed spec fn view(&self) -> Seq<char> {
        self.raw@
    }
}

/// A preset id that survives restarts and rescans: the database id and the
/// inner preset id joined by a pipe. The inner id may itself hold pipes,
/// so reading splits at the first unescaped pipe, and pipes in the
/// database id are escaped on writing.
#[derive(Clone, PartialEq, Eq, Debug)]
pub struct PersistentPresetId {
    db_id: PersistentDatabaseId,
    inner_preset_id: PersistentInnerPresetId,
}

impl PersistentPresetId {
    pub fn new(db_id: PersistentDatabaseId, inner_preset_id: PersistentInnerPresetId) -> (r:
        PersistentPresetId)
        ensures
            r.spec_db_id() == db_id@,
            r.spec_inner_preset_id() == inner_preset_id@,
    {
        PersistentPresetId { db_id, inner_preset_id }
    }

    pub closed spec fn spec_db_id(self) -> Seq<char> {
        self.db_id@
    }

    pub closed spec fn spec_inner_preset_id(self) -> Seq<char> {
        self.inner_preset_id@
    }

    /// Writes the id in its persistent form: the escaped database id, a
    /// pipe, and the inner id as it is.
    pub fn to_string(&self) -> (r: String)
        ensures
            r@ == spec_escape_pipes(self.spec_db_id()) + seq!['|'] + self.spec_inner_preset_id(),
    {
        let mut chars = escape_pipes(self.db_id.get());
        chars.push('|');
        let ghost with_pipe = chars@;
        let inner = self.inner_preset_id.get();
        let n = inner.unicode_len();
        let mut i: usize = 0;
        while i < n
            invariant
                i <= n,
                n == inner@.len(),
                chars@ == with_pipe + inner@.subrange(0, i as int),
            decreases n - i,
        {
            chars.push(inner.get_char(i));
            proof {
                assert(with_pipe + inner@.subrange(0, i + 1) =~= (with_pipe + inner@.subrange(
                    0,
                    i as int,
                )).push(inner@[i as int]));
            }
            i += 1;
        }
        proof {
            assert(inner@.subrange(0, n as int) =~= inner@);
            assert(chars@ =~= spec_escape_pipes(self.spec_db_id()) + seq!['|']
                + self.spec_inner_preset_id());
        }
        chars_to_string(&chars)
    }

    /// Reads an id from its persistent form: the part before the first
    /// unescaped pipe, unescaped, is the database id; everything after
    /// that pipe is the inner id. Fails exactly when no unescaped pipe
    /// exists.
    pub fn parse(s: &str) -> (r: Result<PersistentPresetId, &'static str>)
        ensures
            (forall|i: int| !spec_is_unescaped_pipe(s@, i)) ==> (r matches Err(e) && e@
                == "no | separator found in persistent preset ID"@),
            (exists|i: int| spec_is_unescaped_pipe(s@, i)) ==> {
                let i = choose|i: int|
                    spec_is_unescaped_pipe(s@, i) && (forall|j: int|
                        spec_is_unescaped_pipe(s@, j) ==> i <= j);
                r matches Ok(id) && id.spec_db_id() == spec_unescape_pipes(s@.subrange(0, i))
                    && id.spec_inner_preset_id() == s@.subrange(i + 1, s@.len() as int)
            },
    {
        let n = s.unicode_len();
        let mut i: usize = 0;
        let mut split: Option<usize> = None;
        while i < n && split.is_none()
            invariant
                i <= n,
                n == s@.len(),
                (match split {
                    Some(p) => spec_is_unescaped_pipe(s@, p as int) && (forall|j: int|
                        0 <= j < p ==> !spec_is_unescaped_pipe(s@, j)) && p < i,
                    None => forall|j: int| 0 <= j < i ==> !spec_is_unescaped_pipe(s@, j),
                }),
            decreases n - i,
        {
            let c = s.get_char(i);
            if c == '|' {
                let escaped = i > 0 && s.get_char(i - 1) == '\\';
                if !escaped {
                    split = Some(i);
                }
            }
            i += 1;
        }
        match split {
            None => {
                proof {
                    assert forall|j: int| !spec_is_unescaped_pipe(s@, j) by {
                        if 0 <= j < n {
                        }
                    }
                }
                Err("no | separator found in persistent preset ID")
            },
            Some(p) => {
                let db_chars = unescape_pipes_from_prefix(s, p);
                let db = chars_to_string(&db_chars);
                let mut inner_chars: Vec<char> = Vec::new();
                let mut k: usize = p + 1;
                while k < n
                    invariant
                        p + 1 <= k <= n,
                        n == s@.len(),
                        inner_chars@ == s@.subrange(p + 1, k as int),
                    decreases n - k,
                {
                    inner_chars.push(s.get_char(k));
                    proof {
                        assert(s@.subrange(p + 1, k + 1) =~= s@.subrange(p + 1, k as int).push(
                            s@[k as int],
                        ));
                    }
                    k += 1;
                }
                let inner = chars_to_string(&inner_chars);
                let id = PersistentPresetId {
                    db_id: PersistentDatabaseId { raw: db },
                    inner_preset_id: PersistentInnerPresetId { raw: inner },
                };
                proof {
                    let w = choose|w: int|
                        spec_is_unescaped_pipe(s@, w) && (forall|j: int|
                            spec_is_unescaped_pipe(s@, j) ==> w <= j);
                    assert(spec_is_unescaped_pipe(s@, p as int));
                }
                Ok(id)
            },
        }
    }
}

/// Converts escaped pipes back within the prefix of length `to`.
fn unescape_pipes_from_prefix(s: &str, to: usize) -> (r: Vec<char>)
    requires
        to <= s@.len(),
    ensures
        r@ == spec_unescape_pipes(s@.subrange(0, to as int)),
{
    let mut out: Vec<char> = Vec::new();
    let mut i: usize = 0;
    proof {
        assert(s@.subrange(0, to as int).subrange(0, to as int) =~= s@.subrange(0, to as int));
    }
    while i < to
        invariant
            i <= to,
            to <= s@.len(),
            out@ + spec_unescape_pipes(s@.subrange(0, to as int).subrange(i as int, to as int))
                == spec_unescape_pipes(s@.subrange(0, to as int)),
        decreases to - i,
    {
        let c = s.get_char(i);
        let ghost prefix = s@.subrange(0, to as int);
        let ghost tail = prefix.subrange(i as int, to as int);
        let ghost before = out@;
        if c == '\\' && i + 1 < to && s.get_char(i + 1) == '|' {
            out.push('|');
            proof {
                assert(tail[0] == '\\' && tail[1] == '|');
                assert(tail.subrange(2, tail.len() as int) =~= prefix.subrange(
                    i + 2,
                    to as int,
                ));
                assert(out@ =~= before + seq!['|']);
                assert(out@ + spec_unescape_pipes(prefix.subrange(i + 2, to as int)) =~= before
                    + spec_unescape_pipes(tail));
            }
            i += 2;
        } else {
            out.push(c);
            proof {
                assert(tail[0] == c);
                // An escaped pair here would contradict the branch taken.
                if tail.len() >= 2 && tail[0] == '\\' && tail[1] == '|' {
                    assert(false);
                }
                assert(tail.subrange(1, tail.len() as int) =~= prefix.subrange(i + 1, to as int));
                assert(out@ =~= before + seq![c]);
                assert(out@ + spec_unescape_pipes(prefix.subrange(i + 1, to as int)) =~= before
                    + spec_unescape_pipes(tail));
            }
            i += 1;
        }
    }
    proof {
        let prefix = s@.subrange(0, to as int);
        assert(prefix.subrange(to as int, to as int) =~= Seq::<char>::empty());
        assert(out@ =~= spec_unescape_pipes(prefix));
    }
    out
}

/// A named preset, as the browser lists it.
pub struct Preset {
    pub id: PersistentPresetId,
    pub name: String,
}

/// One bank of macro parameters.
pub struct MacroParam {
    pub name: String,
    pub section_name: String,
    pub param_index: Option<u32>,
}

/// A bank of macro parameters.
pub struct MacroParamBank {
    params: Vec<MacroParam>,
}

impl MacroParamBank {
    pub closed spec fn spec_params(self) -> Seq<MacroParam> {
        self.params@
    }

    pub fn new(params: Vec<MacroParam>) -> (r: MacroParamBank)
        ensures
            r.spec_params() == params@,
    {
        MacroParamBank { params }
    }

    pub fn params(&self) -> (r: &Vec<MacroParam>)
        ensures
            r@ == self.spec_params(),
    {
        &self.params
    }

    /// The bank's display name: the non-empty section names of its
    /// parameters, joined by a slash.
    pub fn name(&self) -> (r: String)
    {
        let mut chars: Vec<char> = Vec::new();
        let mut i: usize = 0;
        while i < self.params.len()
            decreases self.params@.len() - i,
        {
            let section = &self.params[i].section_name;
            let section_len = section.as_str().unicode_len();
            if section_len > 0 {
                if chars.len() > 0 {
                    chars.push(' ');
                    chars.push('/');
                    chars.push(' ');
                }
                let mut j: usize = 0;
                while j < section_len
                    invariant
                        section_len == section@.len(),
                    decreases section_len - j,
                {
                    chars.push(section.as_str().get_char(j));
                    j += 1;
                }
            }
            i += 1;
        }
        chars_to_string(&chars)
    }

    /// The parameter at a slot of this bank.
    pub fn find_macro_param_at(&self, slot_index: u32) -> (r: Option<&MacroParam>)
        ensures
            (match r {
                Some(p) => slot_index < self.spec_params().len() && *p == self.spec_params()[
                    slot_index as int
                ],
                None => slot_index >= self.spec_params().len(),
            }),
    {
        if (slot_index as usize) < self.params.len() {
            Some(&self.params[slot_index as usize])
        } else {
            None
        }
    }

    pub fn param_count(&self) -> (r: u32)
        requires
            self.spec_params().len() <= u32::MAX,
        ensures
            r == self.spec_params().len(),
    {
        self.params.len() as u32
    }
}

/// The preset currently loaded, with its macro parameter banks.
pub struct CurrentPreset {
    pub preset: Preset,
    pub macro_param_banks: Vec<MacroParamBank>,
}

impl CurrentPreset {
    pub fn preset(&self) -> (r: &Preset)
    {
        &self.preset
    }

    /// The bank at an index.
    pub fn find_macro_param_bank_at(&self, bank_index: u32) -> (r: Option<&MacroParamBank>)
        ensures
            (match r {
                Some(b) => bank_index < self.macro_param_banks@.len() && *b
                    == self.macro_param_banks@[bank_index as int],
                None => bank_index >= self.macro_param_banks@.len(),
            }),
    {
        if (bank_index as usize) < self.macro_param_banks.len() {
            Some(&self.macro_param_banks[bank_index as usize])
        } else {
            None
        }
    }

    /// The parameter at a flat slot index: banks hold exactly eight
    /// slots, so the flat index decomposes into bank `slot_index / 8` and
    /// bank slot `slot_index % 8`.
    pub fn find_macro_param_at(&self, slot_index: u32) -> (r: Option<&MacroParam>)
        ensures
            (match r {
                Some(p) => slot_index / 8 < self.macro_param_banks@.len() && slot_index % 8
                    < self.macro_param_banks@[slot_index as int / 8].spec_params().len() && *p
                    == self.macro_param_banks@[slot_index as int / 8].spec_params()[slot_index as int
                    % 8],
                None => slot_index / 8 >= self.macro_param_banks@.len() || slot_index % 8
                    >= self.macro_param_banks@[slot_index as int / 8].spec_params().len(),
            }),
    {
        let bank_index = slot_index / 8;
        let bank_slot_index = slot_index % 8;
        self.find_bank_macro_param_at(bank_index, bank_slot_index)
    }

    /// The parameter at a slot of a bank: `None` exactly when the bank or
    /// the slot within it does not exist.
    pub fn find_bank_macro_param_at(&self, bank_index: u32, bank_slot_index: u32) -> (r: Option<
        &MacroParam,
    >)
        ensures
            (match r {
                Some(p) => bank_index < self.macro_param_banks@.len() && bank_slot_index
                    < self.macro_param_banks@[bank_index as int].spec_params().len() && *p
                    == self.macro_param_banks@[bank_index as int].spec_params()[
                    bank_slot_index as int
                ],
                None => bank_index >= self.macro_param_banks@.len() || bank_slot_index
                    >= self.macro_param_banks@[bank_index as int].spec_params().len(),
            }),
    {
        match self.find_macro_param_bank_at(bank_index) {
            Some(bank) => bank.find_macro_param_at(bank_slot_index),
            None => None,
        }
    }

    pub fn macro_param_bank_count(&self) -> (r: u32)
        requires
            self.macro_param_banks@.len() <= u32::MAX,
        ensures
            r == self.macro_param_banks@.len(),
    {
        self.macro_param_banks.len() as u32
    }

    pub fn has_params(&self) -> (r: bool)
        ensures
            r == (self.macro_param_banks@.len() > 0),
    {
        self.macro_param_banks.len() > 0
    }
}

} // verus!
