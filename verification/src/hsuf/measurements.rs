//! Units of length and weight, and conversion to inches and pounds.

use crate::decimal::{rounded_spec, scaled_spec, Decimal};
use crate::hsuf::models::QuantitativeValue;
use crate::text::{
    copy_str, is_space, lowercase_of, opt_text, same_text, trim, trim_end_spec, trim_spec,
    trim_start_spec, trimmed_lower, uppercase_of,
};
use vstd::prelude::*;

verus! {

/// Whether `code` is one of the unit codes for a length.
pub open spec fn is_length_code(code: Seq<char>) -> bool {
    code == "INH"@ || code == "FT"@ || code == "CMT"@ || code == "MTR"@ || code == "MMT"@ || code
        == "YRD"@
}

/// Whether `code` is one of the unit codes for a weight.
pub open spec fn is_weight_code(code: Seq<char>) -> bool {
    code == "LBR"@ || code == "ONZ"@ || code == "KGM"@ || code == "GRM"@
}

/// The unit code that a lower-case name of a length unit stands for.
pub open spec fn length_code_named(name: Seq<char>) -> Option<Seq<char>> {
    if name == "inch"@ || name == "inches"@ || name == "in"@ {
        Some("INH"@)
    } else if name == "foot"@ || name == "feet"@ || name == "ft"@ {
        Some("FT"@)
    } else if name == "centimeter"@ || name == "centimeters"@ || name == "cm"@ {
        Some("CMT"@)
    } else if name == "meter"@ || name == "meters"@ || name == "m"@ {
        Some("MTR"@)
    } else if name == "millimeter"@ || name == "millimeters"@ || name == "mm"@ {
        Some("MMT"@)
    } else if name == "yard"@ || name == "yards"@ {
        Some("YRD"@)
    } else {
        None
    }
}

/// The unit code that a lower-case name of a weight unit stands for.
pub open spec fn weight_code_named(name: Seq<char>) -> Option<Seq<char>> {
    if name == "pound"@ || name == "pounds"@ || name == "lb"@ || name == "lbs"@ {
        Some("LBR"@)
    } else if name == "ounce"@ || name == "ounces"@ || name == "oz"@ {
        Some("ONZ"@)
    } else if name == "kilogram"@ || name == "kilograms"@ || name == "kg"@ {
        Some("KGM"@)
    } else if name == "gram"@ || name == "grams"@ || name == "g"@ {
        Some("GRM"@)
    } else {
        None
    }
}

/// The length code of a quantity: its own code, trimmed, when that is a
/// length code as it stands or in upper case; else the code that its unit
/// name stands for.
pub open spec fn length_code_spec(code: Option<Seq<char>>, text: Option<Seq<char>>) -> Option<
    Seq<char>,
> {
    if code is Some && is_length_code(trim_spec(code->0)) {
        Some(trim_spec(code->0))
    } else if code is Some && is_length_code(uppercase_of(trim_spec(code->0))) {
        Some(uppercase_of(trim_spec(code->0)))
    } else if text is Some {
        length_code_named(lowercase_of(trim_spec(text->0)))
    } else {
        None
    }
}

/// The weight code of a quantity: its own code, trimmed, when that is a
/// weight code as it stands or in upper case; else the code that its unit
/// name stands for.
pub open spec fn weight_code_spec(code: Option<Seq<char>>, text: Option<Seq<char>>) -> Option<
    Seq<char>,
> {
    if code is Some && is_weight_code(trim_spec(code->0)) {
        Some(trim_spec(code->0))
    } else if code is Some && is_weight_code(uppercase_of(trim_spec(code->0))) {
        Some(uppercase_of(trim_spec(code->0)))
    } else if text is Some {
        weight_code_named(lowercase_of(trim_spec(text->0)))
    } else {
        None
    }
}

/// How many inches one unit of a length code is, as a fraction.
pub open spec fn inches_per(code: Seq<char>) -> (int, int) {
    if code == "INH"@ {
        (1, 1)
    } else if code == "FT"@ {
        (12, 1)
    } else if code == "CMT"@ {
        (3937007874, 10000000000)
    } else if code == "MTR"@ {
        (3937007874, 100000000)
    } else if code == "MMT"@ {
        (3937007874, 100000000000)
    } else {
        (36, 1)
    }
}

/// How many pounds one unit of a weight code is, as a fraction.
pub open spec fn pounds_per(code: Seq<char>) -> (int, int) {
    if code == "LBR"@ {
        (1, 1)
    } else if code == "ONZ"@ {
        (1, 16)
    } else if code == "KGM"@ {
        (220462262, 100000000)
    } else {
        (220462262, 100000000000)
    }
}

/// A quantity as a positive number with a unit code of the kind asked for.
pub open spec fn measured(
    value: Option<QuantitativeValue>,
    code: Option<Seq<char>>,
) -> Option<(int, Seq<char>)> {
    match value {
        Some(q) => match q.value {
            Some(n) => if n.micros > 0 && code is Some {
                Some((n.micros as int, code->0))
            } else {
                None
            },
            None => None,
        },
        None => None,
    }
}

/// The length in inches, in millionths: the number times the inches of its
/// unit, rounded toward zero; nothing for a missing or non-positive number,
/// an unknown unit, or a result too large to hold.
pub open spec fn inches_spec(value: Option<QuantitativeValue>) -> Option<int> {
    let code = match value {
        Some(q) => length_code_spec(opt_text(q.unitCode), opt_text(q.unitText)),
        None => None,
    };
    match measured(value, code) {
        Some((n, c)) => {
            let r = scaled_spec(n, inches_per(c).0, inches_per(c).1);
            if r <= i64::MAX {
                Some(r)
            } else {
                None
            }
        },
        None => None,
    }
}

/// The weight in pounds, in millionths: the number times the pounds of its
/// unit, rounded toward zero; nothing for a missing or non-positive number,
/// an unknown unit, or a result too large to hold.
pub open spec fn pounds_spec(value: Option<QuantitativeValue>) -> Option<int> {
    let code = match value {
        Some(q) => weight_code_spec(opt_text(q.unitCode), opt_text(q.unitText)),
        None => None,
    };
    match measured(value, code) {
        Some((n, c)) => {
            let r = scaled_spec(n, pounds_per(c).0, pounds_per(c).1);
            if r <= i64::MAX {
                Some(r)
            } else {
                None
            }
        },
        None => None,
    }
}

fn length_code_for(name: &str) -> (out: Option<&'static str>)
    ensures
        match out {
            Some(c) => length_code_named(name@) == Some(c@),
            None => length_code_named(name@) is None,
        },
{
    if same_text(name, "inch") || same_text(name, "inches") || same_text(name, "in") {
        Some("INH")
    } else if same_text(name, "foot") || same_text(name, "feet") || same_text(name, "ft") {
        Some("FT")
    } else if same_text(name, "centimeter") || same_text(name, "centimeters") || same_text(
        name,
        "cm",
    ) {
        Some("CMT")
    } else if same_text(name, "meter") || same_text(name, "meters") || same_text(name, "m") {
        Some("MTR")
    } else if same_text(name, "millimeter") || same_text(name, "millimeters") || same_text(
        name,
        "mm",
    ) {
        Some("MMT")
    } else if same_text(name, "yard") || same_text(name, "yards") {
        Some("YRD")
    } else {
        None
    }
}

fn weight_code_for(name: &str) -> (out: Option<&'static str>)
    ensures
        match out {
            Some(c) => weight_code_named(name@) == Some(c@),
            None => weight_code_named(name@) is None,
        },
{
    if same_text(name, "pound") || same_text(name, "pounds") || same_text(name, "lb")
        || same_text(name, "lbs") {
        Some("LBR")
    } else if same_text(name, "ounce") || same_text(name, "ounces") || same_text(name, "oz") {
        Some("ONZ")
    } else if same_text(name, "kilogram") || same_text(name, "kilograms") || same_text(
        name,
        "kg",
    ) {
        Some("KGM")
    } else if same_text(name, "gram") || same_text(name, "grams") || same_text(name, "g") {
        Some("GRM")
    } else {
        None
    }
}

fn known_length_code(code: &str) -> (r: bool)
    ensures
        r == is_length_code(code@),
{
    same_text(code, "INH") || same_text(code, "FT") || same_text(code, "CMT") || same_text(
        code,
        "MTR",
    ) || same_text(code, "MMT") || same_text(code, "YRD")
}

fn known_weight_code(code: &str) -> (r: bool)
    ensures
        r == is_weight_code(code@),
{
    same_text(code, "LBR") || same_text(code, "ONZ") || same_text(code, "KGM") || same_text(
        code,
        "GRM",
    )
}

/// The length code of a quantity with unit code `code` and unit name `text`.
pub fn normalize_length_code(code: Option<&str>, text: Option<&str>) -> (out: Option<String>)
    ensures
        opt_text(out) == length_code_spec(
            match code {
                Some(c) => Some(c@),
                None => None,
            },
            match text {
                Some(t) => Some(t@),
                None => None,
            },
        ),
{
    if let Some(c) = code {
        let plain = trim(c);
        if known_length_code(plain.as_str()) {
            return Some(plain);
        }
        let upper = plain.as_str().to_uppercase();
        if known_length_code(upper.as_str()) {
            return Some(upper);
        }
    }
    match text {
        Some(t) => {
            let lower = trimmed_lower(t);
            match length_code_for(lower.as_str()) {
                Some(c) => Some(copy_str(c)),
                None => None,
            }
        },
        None => None,
    }
}

/// The weight code of a quantity with unit code `code` and unit name `text`.
pub fn normalize_weight_code(code: Option<&str>, text: Option<&str>) -> (out: Option<String>)
    ensures
        opt_text(out) == weight_code_spec(
            match code {
                Some(c) => Some(c@),
                None => None,
            },
            match text {
                Some(t) => Some(t@),
                None => None,
            },
        ),
{
    if let Some(c) = code {
        let plain = trim(c);
        if known_weight_code(plain.as_str()) {
            return Some(plain);
        }
        let upper = plain.as_str().to_uppercase();
        if known_weight_code(upper.as_str()) {
            return Some(upper);
        }
    }
    match text {
        Some(t) => {
            let lower = trimmed_lower(t);
            match weight_code_for(lower.as_str()) {
                Some(c) => Some(copy_str(c)),
                None => None,
            }
        },
        None => None,
    }
}

fn opt_str(o: &Option<String>) -> (out: Option<&str>)
    ensures
        match out {
            Some(s) => opt_text(*o) == Some(s@),
            None => *o is None,
        },
{
    match o {
        Some(s) => Some(s.as_str()),
        None => None,
    }
}

fn inches_factor(code: &str) -> (f: (u64, u64))
    ensures
        (f.0 as int, f.1 as int) == inches_per(code@),
{
    if same_text(code, "INH") {
        (1, 1)
    } else if same_text(code, "FT") {
        (12, 1)
    } else if same_text(code, "CMT") {
        (3937007874, 10000000000)
    } else if same_text(code, "MTR") {
        (3937007874, 100000000)
    } else if same_text(code, "MMT") {
        (3937007874, 100000000000)
    } else {
        (36, 1)
    }
}

fn pounds_factor(code: &str) -> (f: (u64, u64))
    ensures
        (f.0 as int, f.1 as int) == pounds_per(code@),
{
    if same_text(code, "LBR") {
        (1, 1)
    } else if same_text(code, "ONZ") {
        (1, 16)
    } else if same_text(code, "KGM") {
        (220462262, 100000000)
    } else {
        (220462262, 100000000000)
    }
}

/// The length of `value` in inches.
pub fn quantitative_length_to_inches(value: &Option<QuantitativeValue>) -> (out: Option<Decimal>)
    ensures
        out is Some <==> inches_spec(*value) is Some,
        out is Some ==> out->0.micros == inches_spec(*value)->0,
{
    match value {
        Some(q) => match q.value {
            Some(number) => {
                if !number.is_positive() {
                    return None;
                }
                match normalize_length_code(opt_str(&q.unitCode), opt_str(&q.unitText)) {
                    Some(code) => {
                        let f = inches_factor(code.as_str());
                        number.scaled(f.0, f.1)
                    },
                    None => None,
                }
            },
            None => None,
        },
        None => None,
    }
}

/// The weight of `value` in pounds.
pub fn quantitative_weight_to_pounds(value: &Option<QuantitativeValue>) -> (out: Option<Decimal>)
    ensures
        out is Some <==> pounds_spec(*value) is Some,
        out is Some ==> out->0.micros == pounds_spec(*value)->0,
{
    match value {
        Some(q) => match q.value {
            Some(number) => {
                if !number.is_positive() {
                    return None;
                }
                match normalize_weight_code(opt_str(&q.unitCode), opt_str(&q.unitText)) {
                    Some(code) => {
                        let f = pounds_factor(code.as_str());
                        number.scaled(f.0, f.1)
                    },
                    None => None,
                }
            },
            None => None,
        },
        None => None,
    }
}

/// `value` rounded to one fractional digit, halves upward; nothing for a
/// negative number or a result too large to hold.
pub fn round_one(value: Decimal) -> (out: Option<Decimal>)
    ensures
        out is Some <==> value.micros >= 0 && rounded_spec(value.micros as int, 100_000)
            <= i64::MAX,
        out is Some ==> out->0.micros == rounded_spec(value.micros as int, 100_000),
{
    value.rounded(100_000)
}

/// `value` rounded to two fractional digits, halves upward; nothing for a
/// negative number or a result too large to hold.
pub fn round_two(value: Decimal) -> (out: Option<Decimal>)
    ensures
        out is Some <==> value.micros >= 0 && rounded_spec(value.micros as int, 10_000)
            <= i64::MAX,
        out is Some ==> out->0.micros == rounded_spec(value.micros as int, 10_000),
{
    value.rounded(10_000)
}

/// A text of three characters, none of them white space, is trimmed already.
proof fn lemma_code_is_trimmed(code: Seq<char>)
    requires
        code.len() == 3,
        !is_space(code[0]),
        !is_space(code[2]),
    ensures
        trim_spec(code) == code,
{
    assert(trim_start_spec(code) == code);
    assert(trim_end_spec(code) == code);
}

/// A positive length with the unit code `INH` converts to itself, and a
/// positive weight with the unit code `LBR` converts to itself, whatever
/// their unit names say; so does one whose code or name comes to `INH` or
/// `LBR`. A number that is missing or not positive converts to nothing.
pub proof fn lemma_conversion_round_trip(value: QuantitativeValue)
    ensures
        (value.value is Some && value.value->0.micros > 0 && opt_text(value.unitCode) == Some(
            "INH"@,
        )) ==> inches_spec(Some(value)) == Some(value.value->0.micros as int),
        (value.value is Some && value.value->0.micros > 0 && opt_text(value.unitCode) == Some(
            "LBR"@,
        )) ==> pounds_spec(Some(value)) == Some(value.value->0.micros as int),
        (value.value is Some && value.value->0.micros > 0 && length_code_spec(
            opt_text(value.unitCode),
            opt_text(value.unitText),
        ) == Some("INH"@)) ==> inches_spec(Some(value)) == Some(value.value->0.micros as int),
        (value.value is Some && value.value->0.micros > 0 && weight_code_spec(
            opt_text(value.unitCode),
            opt_text(value.unitText),
        ) == Some("LBR"@)) ==> pounds_spec(Some(value)) == Some(value.value->0.micros as int),
        (value.value is Some && value.value->0.micros <= 0) ==> inches_spec(Some(value)) is None
            && pounds_spec(Some(value)) is None,
        value.value is None ==> inches_spec(Some(value)) is None && pounds_spec(Some(value))
            is None,
{
    reveal_strlit("INH");
    reveal_strlit("LBR");
    lemma_code_is_trimmed("INH"@);
    lemma_code_is_trimmed("LBR"@);
    if value.value is Some && value.value->0.micros > 0 {
        let n = value.value->0.micros as int;
        assert(inches_per("INH"@) == (1int, 1int));
        assert(pounds_per("LBR"@) == (1int, 1int));
        assert(scaled_spec(n, 1, 1) == n);
    }
}

} // verus!
