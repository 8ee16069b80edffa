//! Category aspects as the marketplace's taxonomy describes them.

#![allow(non_snake_case)]

use crate::text::{concat2, same_text, uppercase_of};
use vstd::prelude::*;

verus! {

/// Why a taxonomy lookup failed.
#[derive(Debug)]
pub enum EbayTaxonomyError {
    Request(String),
}

impl EbayTaxonomyError {
    /// The text of the failure.
    pub open spec fn message_spec(self) -> Seq<char> {
        match self {
            EbayTaxonomyError::Request(detail) => "taxonomy request failed: "@ + detail@,
        }
    }

    /// The text of the failure.
    pub fn message(&self) -> (out: String)
        ensures
            out@ == self.message_spec(),
    {
        match self {
            EbayTaxonomyError::Request(detail) => concat2(
                "taxonomy request failed: ",
                detail.as_str(),
            ),
        }
    }
}

/// The aspects of one category.
#[derive(Debug)]
pub struct TaxonomyResponse {
    pub aspects: Vec<Aspect>,
}

/// One aspect: its name, the values it offers and how it constrains a listing.
#[derive(Debug)]
pub struct Aspect {
    pub localizedAspectName: String,
    pub aspectValues: Vec<AspectValue>,
    pub aspectConstraint: Option<AspectConstraint>,
}

/// One value that an aspect offers.
#[derive(Debug)]
pub struct AspectValue {
    pub localizedValue: String,
}

/// How an aspect constrains a listing.
#[derive(Debug)]
pub struct AspectConstraint {
    pub aspectMode: Option<String>,
    pub aspectRequired: Option<bool>,
    pub itemToAspectCardinality: Option<String>,
}

/// Whether an aspect takes any text or only one of its own values.
#[derive(Debug, Clone, Copy, PartialEq, Eq, Structural)]
pub enum AspectMode {
    FreeText,
    SelectionOnly,
}

/// Whether an aspect takes one value or several.
#[derive(Debug, Clone, Copy, PartialEq, Eq, Structural)]
pub enum ItemCardinality {
    Multi,
    Single,
}

/// The item conditions that the marketplace knows.
#[derive(Debug, Clone, Copy, PartialEq, Eq, Structural)]
pub enum EbayCondition {
    New,
    NewOther,
    NewWithDefects,
    CertifiedRefurbished,
    Used,
    UsedVeryGood,
    UsedGood,
    UsedAcceptable,
    ForParts,
}

/// The mode that an upper-case mode word names.
pub open spec fn mode_named(upper: Seq<char>) -> Option<AspectMode> {
    if upper == "FREE_TEXT"@ {
        Some(AspectMode::FreeText)
    } else if upper == "SELECTION_ONLY"@ {
        Some(AspectMode::SelectionOnly)
    } else {
        None
    }
}

/// The cardinality that an upper-case cardinality word names.
pub open spec fn cardinality_named(upper: Seq<char>) -> ItemCardinality {
    if upper == "MULTI"@ {
        ItemCardinality::Multi
    } else {
        ItemCardinality::Single
    }
}

/// The views of the values that an aspect offers.
pub open spec fn value_texts(values: Seq<AspectValue>) -> Seq<Seq<char>> {
    Seq::new(values.len(), |i: int| values[i].localizedValue@)
}

impl AspectMode {
    /// The mode that `value` names, whatever its letter case.
    pub fn from_raw(value: &str) -> (out: Option<AspectMode>)
        ensures
            out == mode_named(uppercase_of(value@)),
    {
        let upper = value.to_uppercase();
        if same_text(upper.as_str(), "FREE_TEXT") {
            Some(AspectMode::FreeText)
        } else if same_text(upper.as_str(), "SELECTION_ONLY") {
            Some(AspectMode::SelectionOnly)
        } else {
            None
        }
    }
}

/// The cardinality that a cardinality word names, whatever its letter
/// case: `Multi` for the word that reads `MULTI` in upper case, `Single` for
/// every other word, for the empty word and where there is no word.
pub open spec fn cardinality_of(value: Option<Seq<char>>) -> ItemCardinality {
    match value {
        Some(word) => if word.len() == 0 {
            ItemCardinality::Single
        } else {
            cardinality_named(uppercase_of(word))
        },
        None => ItemCardinality::Single,
    }
}

impl ItemCardinality {
    /// The cardinality that `value` names, whatever its letter case; `Single`
    /// when there is no word or an unknown one.
    pub fn from_raw(value: Option<&str>) -> (out: ItemCardinality)
        ensures
            out == cardinality_of(
                match value {
                    Some(v) => Some(v@),
                    None => None,
                },
            ),
            value is None ==> out == ItemCardinality::Single,
    {
        match value {
            Some(v) => {
                if v.is_empty() {
                    return ItemCardinality::Single;
                }
                let upper = v.to_uppercase();
                if same_text(upper.as_str(), "MULTI") {
                    ItemCardinality::Multi
                } else {
                    ItemCardinality::Single
                }
            },
            None => ItemCardinality::Single,
        }
    }
}

impl Aspect {
    /// The mode of the aspect's constraint, when it has one that names a mode.
    pub open spec fn mode_spec(self) -> Option<AspectMode> {
        match self.aspectConstraint {
            Some(c) => match c.aspectMode {
                Some(m) => mode_named(uppercase_of(m@)),
                None => None,
            },
            None => None,
        }
    }

    /// The cardinality of the aspect: that which its constraint names,
    /// `Single` where it has no constraint or the constraint names none.
    pub open spec fn cardinality_spec(self) -> ItemCardinality {
        match self.aspectConstraint {
            Some(c) => cardinality_of(crate::text::opt_text(c.itemToAspectCardinality)),
            None => ItemCardinality::Single,
        }
    }

    /// The mode of the aspect's constraint, when it has one that names a mode.
    pub fn mode(&self) -> (out: Option<AspectMode>)
        ensures
            out == self.mode_spec(),
    {
        match &self.aspectConstraint {
            Some(c) => match &c.aspectMode {
                Some(m) => AspectMode::from_raw(m.as_str()),
                None => None,
            },
            None => None,
        }
    }

    /// The cardinality of the aspect.
    pub fn cardinality(&self) -> (out: ItemCardinality)
        ensures
            out == self.cardinality_spec(),
    {
        match &self.aspectConstraint {
            Some(c) => match &c.itemToAspectCardinality {
                Some(m) => ItemCardinality::from_raw(Some(m.as_str())),
                None => ItemCardinality::from_raw(None),
            },
            None => ItemCardinality::from_raw(None),
        }
    }
}

/// The address of the aspects of a category tree: `root`, then the path of
/// the tree `tree_id`, then the aspects query.
pub open spec fn category_aspects_url_spec(root: Seq<char>, tree_id: Seq<char>) -> Seq<char> {
    root + "/commerce/taxonomy/v1/category_tree/"@ + tree_id
        + "/get_item_aspects_for_category"@
}

/// The address that answers with the aspects of a category of the tree `tree_id`.
pub fn category_aspects_url(root: &str, tree_id: &str) -> (out: String)
    ensures
        out@ == category_aspects_url_spec(root@, tree_id@),
{
    let a = concat2(root, "/commerce/taxonomy/v1/category_tree/");
    let b = concat2(a.as_str(), tree_id);
    concat2(b.as_str(), "/get_item_aspects_for_category")
}

} // verus!
