//! The loosely-typed sensor field value and its two total coercions.
//!
//! A sensor row maps column names to dynamically-typed values. Float
//! payloads are carried as their IEEE 754 bit patterns, so that every
//! coercion decision is made — and verified — here; the caller performs
//! the few floating-point conversions the decision calls for.

use vstd::prelude::*;

use crate::dec::{dec_rep, int_dec_rep, i32_to_dec, u32_to_dec};

verus! {

/// One dynamically-typed field value of a sensor row.
///
/// `R4Bits` / `R8Bits` carry the bit patterns of a 32-bit / 64-bit
/// float. `Other` carries the rendered form of any value kind outside
/// the six expected ones; `Null` is an explicit null.
#[derive(Debug, PartialEq)]
pub enum Variant {
    Str(String),
    Bool(bool),
    I4(i32),
    UI4(u32),
    R4Bits(u32),
    R8Bits(u64),
    Null,
    Other(String),
}

/// The outcome of text coercion: either the finished display string,
/// or the bit pattern of a float still to be rendered with the default
/// numeric formatting (which only float machinery can produce).
#[derive(Debug, PartialEq)]
pub enum TextOut {
    Done(String),
    FormatF32(u32),
    FormatF64(u64),
}

/// The outcome of numeric coercion: the 32-bit float to use, described
/// without float arithmetic. `F32Bits(0)` is exactly `+0.0`.
#[derive(Debug, PartialEq)]
pub enum NumOut {
    /// Use the 32-bit float with this bit pattern.
    F32Bits(u32),
    /// Narrow the 64-bit float with this bit pattern to 32 bits.
    NarrowF64(u64),
    /// Widen this signed integer to a 32-bit float.
    WidenI32(i32),
    /// Widen this unsigned integer to a 32-bit float.
    WidenU32(u32),
    /// Parse this text as a 32-bit float, with `0.0` on parse failure.
    ParseOrZero(String),
}

/// Text coercion: total over every value kind and over absence.
/// Strings pass through, booleans become `"true"` / `"false"`,
/// integers are rendered in decimal, null or absent becomes the empty
/// string, and any other kind passes its rendered form through.
/// Floats alone are handed back as bit patterns to be formatted.
pub fn coerce_text(v: Option<&Variant>) -> (r: TextOut)
    ensures
        match v {
            None => r matches TextOut::Done(s) && s@ == Seq::<char>::empty(),
            Some(var) => match var {
                Variant::Str(t) => r matches TextOut::Done(s) && s@ == t@,
                Variant::Bool(b) => r matches TextOut::Done(s) && s@ == (if *b {
                    "true"@
                } else {
                    "false"@
                }),
                Variant::I4(i) => r matches TextOut::Done(s) && s@ == int_dec_rep(*i as int),
                Variant::UI4(u) => r matches TextOut::Done(s) && s@ == dec_rep(*u as nat),
                Variant::R4Bits(bits) => r == TextOut::FormatF32(*bits),
                Variant::R8Bits(bits) => r == TextOut::FormatF64(*bits),
                Variant::Null => r matches TextOut::Done(s) && s@ == Seq::<char>::empty(),
                Variant::Other(t) => r matches TextOut::Done(s) && s@ == t@,
            },
        },
{
    match v {
        None => TextOut::Done(String::new()),
        Some(var) => match var {
            Variant::Str(t) => TextOut::Done(t.clone()),
            Variant::Bool(b) => TextOut::Done(
                if *b {
                    String::from_str("true")
                } else {
                    String::from_str("false")
                },
            ),
            Variant::I4(i) => TextOut::Done(i32_to_dec(*i)),
            Variant::UI4(u) => TextOut::Done(u32_to_dec(*u)),
            Variant::R4Bits(bits) => TextOut::FormatF32(*bits),
            Variant::R8Bits(bits) => TextOut::FormatF64(*bits),
            Variant::Null => TextOut::Done(String::new()),
            Variant::Other(t) => TextOut::Done(t.clone()),
        },
    }
}

/// Numeric coercion: total over every value kind and over absence.
/// A 32-bit float passes through unchanged; a 64-bit float is
/// narrowed; integers are widened; a string is parsed with `0.0` as
/// the parse-failure default; every other kind — boolean, null,
/// absent, unexpected — is exactly `+0.0` (bit pattern zero).
pub fn coerce_numeric(v: Option<&Variant>) -> (r: NumOut)
    ensures
        match v {
            None => r == NumOut::F32Bits(0u32),
            Some(var) => match var {
                Variant::Str(t) => r matches NumOut::ParseOrZero(s) && s@ == t@,
                Variant::Bool(_) => r == NumOut::F32Bits(0u32),
                Variant::I4(i) => r == NumOut::WidenI32(*i),
                Variant::UI4(u) => r == NumOut::WidenU32(*u),
                Variant::R4Bits(bits) => r == NumOut::F32Bits(*bits),
                Variant::R8Bits(bits) => r == NumOut::NarrowF64(*bits),
                Variant::Null => r == NumOut::F32Bits(0u32),
                Variant::Other(_) => r == NumOut::F32Bits(0u32),
            },
        },
{
    match v {
        Some(var) => match var {
            Variant::R4Bits(bits) => NumOut::F32Bits(*bits),
            Variant::R8Bits(bits) => NumOut::NarrowF64(*bits),
            Variant::I4(i) => NumOut::WidenI32(*i),
            Variant::UI4(u) => NumOut::WidenU32(*u),
            Variant::Str(t) => NumOut::ParseOrZero(t.clone()),
            _ => NumOut::F32Bits(0u32),
        },
        None => NumOut::F32Bits(0u32),
    }
}

/// What looking a column name up in a row yields: the value of the
/// first field with that name, if any.
pub open spec fn spec_lookup(fields: Seq<(String, Variant)>, key: Seq<char>) -> Option<Variant>
    decreases fields.len(),
{
    if fields.len() == 0 {
        None
    } else if fields[0].0@ == key {
        Some(fields[0].1)
    } else {
        spec_lookup(fields.drop_first(), key)
    }
}

/// Looks a column name up in a row, given as (name, value) pairs.
pub fn get_field<'a>(fields: &'a Vec<(String, Variant)>, key: &str) -> (r: Option<&'a Variant>)
    ensures
        match r {
            Some(var) => spec_lookup(fields@, key@) == Some(*var),
            None => spec_lookup(fields@, key@) is None,
        },
{
    let key_owned = String::from_str(key);
    let mut idx: usize = 0;
    proof {
        assert(fields@.skip(0) =~= fields@);
    }
    while idx < fields.len()
        invariant
            idx <= fields@.len(),
            key_owned@ == key@,
            spec_lookup(fields@, key@) == spec_lookup(fields@.skip(idx as int), key@),
        decreases fields@.len() - idx,
    {
        proof {
            assert(fields@.skip(idx as int)[0] == fields@[idx as int]);
            assert(fields@.skip(idx as int).drop_first() =~= fields@.skip(idx as int + 1));
        }
        let hit = fields[idx].0 == key_owned;
        if hit {
            proof {
                assert(fields@[idx as int].0@ == key@);
                assert(spec_lookup(fields@.skip(idx as int), key@) == Some(
                    fields@[idx as int].1,
                ));
            }
            return Some(&fields[idx].1);
        }
        proof {
            assert(fields@[idx as int].0@ != key@);
            assert(spec_lookup(fields@.skip(idx as int), key@) == spec_lookup(
                fields@.skip(idx as int + 1),
                key@,
            ));
        }
        idx += 1;
    }
    proof {
        assert(fields@.skip(fields@.len() as int).len() == 0);
    }
    None
}

} // verus!
