//! Register sub-fields: bit layout and the symbolic names of their values.

use vstd::bits::{lemma_u32_low_bits_mask_is_mod, lemma_u32_pow2_no_overflow, lemma_u32_shl_is_mul, lemma_u32_shr_is_div, low_bits_mask};
use vstd::arithmetic::power2::{pow2, lemma_pow2_pos};
use vstd::prelude::*;

verus! {

/// One symbolic name given to a raw field value.
pub struct ValueName {
    pub value: u32,
    pub name: String,
}

/// A named bit range of a register, with names for some of its values.
pub struct Field {
    pub name: String,
    /// Bit position of the least significant bit.
    pub shift: u32,
    /// Number of bits.
    pub width: u32,
    pub values: Vec<ValueName>,
}

/// Mathematical model of a field.
pub struct FieldModel {
    pub name: Seq<char>,
    pub shift: nat,
    pub width: nat,
    pub values: Seq<(u32, Seq<char>)>,
}

impl View for ValueName {
    type V = (u32, Seq<char>);

    open spec fn view(&self) -> (u32, Seq<char>) {
        (self.value, self.name@)
    }
}

impl View for Field {
    type V = FieldModel;

    open spec fn view(&self) -> FieldModel {
        FieldModel {
            name: self.name@,
            shift: self.shift as nat,
            width: self.width as nat,
            values: self.values@.map_values(|v: ValueName| v@),
        }
    }
}

/// The value held by bits `shift .. shift + width` of `raw`.
pub open spec fn bits_of(raw: u32, shift: nat, width: nat) -> nat {
    (raw as nat / pow2(shift)) % pow2(width)
}

/// The name given to `v` by the first entry of `values` that mentions it.
pub open spec fn name_of(values: Seq<(u32, Seq<char>)>, v: u32) -> Option<Seq<char>>
    decreases values.len(),
{
    if values.len() == 0 {
        None
    } else if values[0].0 == v {
        Some(values[0].1)
    } else {
        name_of(values.drop_first(), v)
    }
}

/// Extracts bits `shift .. shift + width` of `raw`; bits beyond the 32 of `raw` read as zero.
pub fn extract_bits(raw: u32, shift: u32, width: u32) -> (r: u32)
    ensures
        r as nat == bits_of(raw, shift as nat, width as nat),
{
    if shift >= 32 {
        proof {
            lemma_pow2_pos(width as nat);
            vstd::arithmetic::power2::lemma2_to64();
            if shift > 32 {
                vstd::arithmetic::power2::lemma_pow2_strictly_increases(32, shift as nat);
            }
            vstd::arithmetic::div_mod::lemma_basic_div(raw as int, pow2(shift as nat) as int);
            vstd::arithmetic::div_mod::lemma_small_mod(0, pow2(width as nat));
        }
        return 0;
    }
    let v: u32 = raw >> shift;
    proof {
        lemma_u32_shr_is_div(raw, shift);
    }
    if width >= 32 {
        proof {
            vstd::arithmetic::power2::lemma2_to64();
            if width > 32 {
                vstd::arithmetic::power2::lemma_pow2_strictly_increases(32, width as nat);
            }
            vstd::arithmetic::div_mod::lemma_small_mod(v as nat, pow2(width as nat));
        }
        v
    } else {
        proof {
            lemma_u32_pow2_no_overflow(width as nat);
            lemma_u32_shl_is_mul(1, width);
        }
        let mask: u32 = (1u32 << width) - 1;
        proof {
            assert(mask == low_bits_mask(width as nat) as u32);
            lemma_u32_low_bits_mask_is_mod(v, width as nat);
        }
        v & mask
    }
}

impl Field {
    /// The raw value of this field in a register holding `raw`.
    pub fn value_in(&self, raw: u32) -> (r: u32)
        ensures
            r as nat == bits_of(raw, self@.shift, self@.width),
    {
        extract_bits(raw, self.shift, self.width)
    }

    /// The symbolic name of `v`, or `None` when this field gives `v` no name.
    pub fn value_name(&self, v: u32) -> (r: Option<&String>)
        ensures
            r matches Some(s) ==> name_of(self@.values, v) == Some(s@),
            r is None ==> name_of(self@.values, v) is None,
    {
        let mut i: usize = 0;
        assert(self@.values.subrange(0, self@.values.len() as int) =~= self@.values);
        while i < self.values.len()
            invariant
                0 <= i <= self.values@.len(),
                name_of(self@.values, v) == name_of(self@.values.subrange(i as int, self@.values.len() as int), v),
            decreases self.values@.len() - i,
        {
            proof {
                let s = self@.values.subrange(i as int, self@.values.len() as int);
                assert(s.drop_first() =~= self@.values.subrange(i + 1, self@.values.len() as int));
            }
            if self.values[i].value == v {
                return Some(&self.values[i].name);
            }
            i = i + 1;
        }
        None
    }
}

} // verus!
