//! The product record.

#![allow(non_snake_case)]

use crate::decimal::Decimal;
use crate::text::{copy_opt, copy_strings, opt_text, texts};
use vstd::prelude::*;

verus! {

/// The maker of a product.
#[derive(Debug)]
pub struct Brand {
    pub name: Option<String>,
}

/// A measured quantity: a number with the code or the name of its unit.
#[derive(Debug)]
pub struct QuantitativeValue {
    pub unitCode: Option<String>,
    pub unitText: Option<String>,
    pub value: Option<Decimal>,
}

/// A size given by name within a size system.
#[derive(Debug)]
pub struct SizeSpecification {
    pub name: Option<String>,
    pub sizeGroup: Option<String>,
    pub sizeSystem: Option<String>,
}

/// What a product is offered for.
#[derive(Debug)]
pub struct Offer {
    pub price: Option<Decimal>,
    pub priceCurrency: Option<String>,
    pub priceSpecification: Option<UnitPriceSpecification>,
}

/// A price stated apart from the offer itself.
#[derive(Debug)]
pub struct UnitPriceSpecification {
    pub price: Option<Decimal>,
    pub priceCurrency: Option<String>,
}

/// One image address or several.
#[derive(Debug)]
pub enum ImageField {
    Single(String),
    Multiple(Vec<String>),
}

/// A size as text, as a measured quantity or by name.
#[derive(Debug)]
pub enum SizeField {
    Text(String),
    Quantitative(QuantitativeValue),
    Specification(SizeSpecification),
}

/// A product.
#[derive(Debug)]
pub struct Product {
    pub name: String,
    pub image: ImageField,
    pub offers: Offer,
    pub description: Option<String>,
    pub brand: Option<Brand>,
    pub color: Option<String>,
    pub material: Option<String>,
    pub size: Option<SizeField>,
    pub sku: Option<String>,
    pub mpn: Option<String>,
    pub height: Option<QuantitativeValue>,
    pub width: Option<QuantitativeValue>,
    pub depth: Option<QuantitativeValue>,
    pub weight: Option<QuantitativeValue>,
}

/// A measured quantity as plain values: unit code, unit name and number.
pub open spec fn quantity_view(q: Option<QuantitativeValue>) -> Option<
    (Option<Seq<char>>, Option<Seq<char>>, Option<Decimal>),
> {
    match q {
        Some(v) => Some((opt_text(v.unitCode), opt_text(v.unitText), v.value)),
        None => None,
    }
}

impl ImageField {
    /// The image addresses in order: one for `Single`, all for `Multiple`.
    pub open spec fn texts_spec(self) -> Seq<Seq<char>> {
        match self {
            ImageField::Single(value) => seq![value@],
            ImageField::Multiple(values) => texts(values@),
        }
    }

    /// The image addresses in order: one for `Single`, all for `Multiple`.
    pub fn as_vec(&self) -> (out: Vec<String>)
        ensures
            texts(out@) == self.texts_spec(),
    {
        match self {
            ImageField::Single(value) => {
                let mut out: Vec<String> = Vec::new();
                out.push(value.clone());
                assert(texts(out@) =~= seq![value@]);
                out
            },
            ImageField::Multiple(values) => copy_strings(values),
        }
    }

    /// A copy of the field.
    pub fn copy(&self) -> (out: ImageField)
        ensures
            out.texts_spec() == self.texts_spec(),
            out is Single <==> self is Single,
    {
        match self {
            ImageField::Single(value) => ImageField::Single(value.clone()),
            ImageField::Multiple(values) => ImageField::Multiple(copy_strings(values)),
        }
    }
}

impl Product {
    /// The name of the brand, when the product has a brand with a name.
    pub open spec fn brand_name(self) -> Option<Seq<char>> {
        match self.brand {
            Some(b) => opt_text(b.name),
            None => None,
        }
    }

    /// The name of the brand, when the product has a brand with a name.
    pub fn brand_name_of(&self) -> (out: Option<&String>)
        ensures
            match out {
                Some(s) => self.brand_name() == Some(s@),
                None => self.brand_name() is None,
            },
    {
        match &self.brand {
            Some(b) => match &b.name {
                Some(n) => Some(n),
                None => None,
            },
            None => None,
        }
    }
}

impl QuantitativeValue {
    /// A copy of the quantity.
    pub fn copy(&self) -> (out: QuantitativeValue)
        ensures
            quantity_view(Some(out)) == quantity_view(Some(*self)),
    {
        QuantitativeValue {
            unitCode: copy_opt(&self.unitCode),
            unitText: copy_opt(&self.unitText),
            value: self.value,
        }
    }
}

} // verus!
