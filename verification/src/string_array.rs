//! The guest's argument and environment strings: byte strings without
//! interior NUL bytes, whose count and NUL-terminated total size both fit
//! the 32-bit quantities the ABI hands the guest.

use vstd::prelude::*;

verus! {

/// Why a set of strings cannot be handed to a guest.
#[derive(Clone, Copy, PartialEq, Eq, Structural, Debug)]
pub enum StringArrayError {
    /// An element holds an interior NUL byte.
    Nul,
    /// The element count or the cumulative NUL-terminated size does not
    /// fit in 32 bits.
    TooLarge,
}

/// The number of bytes the array takes NUL-terminated and back to back:
/// each element's length plus one.
pub open spec fn cumulative_size_of(v: Seq<Seq<u8>>) -> int
    decreases v.len(),
{
    if v.len() == 0 {
        0
    } else {
        cumulative_size_of(v.drop_last()) + v.last().len() + 1
    }
}

/// The elements NUL-terminated and laid back to back.
pub open spec fn flattened(v: Seq<Seq<u8>>) -> Seq<u8>
    decreases v.len(),
{
    if v.len() == 0 {
        Seq::empty()
    } else {
        flattened(v.drop_last()).add(v.last().push(0u8))
    }
}

/// A prefix never outweighs the whole.
proof fn lemma_cumulative_monotone(v: Seq<Seq<u8>>, i: int)
    requires
        0 <= i <= v.len(),
    ensures
        cumulative_size_of(v.take(i)) <= cumulative_size_of(v),
    decreases v.len() - i,
{
    if i < v.len() {
        lemma_cumulative_monotone(v, i + 1);
        assert(v.take(i + 1).drop_last() =~= v.take(i));
        assert(cumulative_size_of(v.take(i)) <= cumulative_size_of(v.take(i + 1)));
    } else {
        assert(v.take(i) =~= v);
    }
}

/// An ordered set of argument or environment strings, validated once:
/// no element holds a NUL byte, and both the element count and the
/// cumulative NUL-terminated size fit in 32 bits.
pub struct StringArray {
    elements: Vec<Vec<u8>>,
}

impl StringArray {
    /// The elements, in order.
    pub closed spec fn view(&self) -> Seq<Seq<u8>> {
        self.elements@.map_values(|e: Vec<u8>| e@)
    }

    /// What construction guarantees of every value of this type.
    pub open spec fn wf(&self) -> bool {
        &&& self@.len() <= u32::MAX
        &&& cumulative_size_of(self@) <= u32::MAX
        &&& forall|i: int| #![auto] 0 <= i < self@.len() ==> !self@[i].contains(0u8)
    }

    /// Validate and take ownership of `elements`. Fails with `Nul` when
    /// some element holds a NUL byte; otherwise with `TooLarge` when the
    /// count or the cumulative NUL-terminated size overflows 32 bits.
    pub fn from_elements(elements: Vec<Vec<u8>>) -> (r: Result<StringArray, StringArrayError>)
        ensures
            match r {
                Ok(sa) => {
                    &&& sa@ == elements@.map_values(|e: Vec<u8>| e@)
                    &&& sa.wf()
                },
                Err(StringArrayError::Nul) => exists|i: int|
                    #![auto]
                    0 <= i < elements@.len() && elements@[i]@.contains(0u8),
                Err(StringArrayError::TooLarge) => elements@.len() > u32::MAX
                    || cumulative_size_of(elements@.map_values(|e: Vec<u8>| e@)) > u32::MAX,
            },
    {
        let ghost v = elements@.map_values(|e: Vec<u8>| e@);
        let mut i: usize = 0;
        while i < elements.len()
            invariant
                i <= elements@.len(),
                v == elements@.map_values(|e: Vec<u8>| e@),
                forall|k: int| #![auto] 0 <= k < i ==> !v[k].contains(0u8),
            decreases elements@.len() - i,
        {
            if contains_byte(&elements[i], 0u8) {
                return Err(StringArrayError::Nul);
            }
            i = i + 1;
        }
        if elements.len() > u32::MAX as usize {
            return Err(StringArrayError::TooLarge);
        }
        let mut total: u64 = 0;
        let mut j: usize = 0;
        while j < elements.len()
            invariant
                j <= elements@.len(),
                v == elements@.map_values(|e: Vec<u8>| e@),
                total == cumulative_size_of(v.take(j as int)),
                total <= u32::MAX,
            decreases elements@.len() - j,
        {
            proof {
                assert(v.take(j as int + 1).drop_last() =~= v.take(j as int));
            }
            let elen = elements[j].len();
            if elen as u64 >= u32::MAX as u64 - total {
                proof {
                    lemma_cumulative_monotone(v, j as int + 1);
                }
                return Err(StringArrayError::TooLarge);
            }
            total = total + elen as u64 + 1;
            j = j + 1;
        }
        proof {
            assert(v.take(elements@.len() as int) =~= v);
        }
        Ok(StringArray { elements })
    }

    /// How many elements the guest will see.
    pub fn number_elements(&self) -> (r: u32)
        requires
            self.wf(),
        ensures
            r == self@.len(),
    {
        self.elements.len() as u32
    }

    /// How many bytes the elements take NUL-terminated and back to back.
    pub fn cumulative_size(&self) -> (r: u32)
        requires
            self.wf(),
        ensures
            r == cumulative_size_of(self@),
    {
        let ghost v = self@;
        let mut total: u64 = 0;
        let mut j: usize = 0;
        while j < self.elements.len()
            invariant
                j <= self.elements@.len(),
                v == self@,
                self.wf(),
                total == cumulative_size_of(v.take(j as int)),
            decreases self.elements@.len() - j,
        {
            proof {
                assert(v.take(j as int + 1).drop_last() =~= v.take(j as int));
                lemma_cumulative_monotone(v, j as int + 1);
            }
            total = total + self.elements[j].len() as u64 + 1;
            j = j + 1;
        }
        proof {
            assert(v.take(self.elements@.len() as int) =~= v);
        }
        total as u32
    }

    /// The elements NUL-terminated and laid back to back: the block of
    /// bytes the guest receives alongside the offsets of each element.
    pub fn flatten(&self) -> (r: Vec<u8>)
        requires
            self.wf(),
        ensures
            r@ == flattened(self@),
    {
        let ghost v = self@;
        let mut out: Vec<u8> = Vec::new();
        let mut j: usize = 0;
        while j < self.elements.len()
            invariant
                j <= self.elements@.len(),
                v == self@,
                out@ == flattened(v.take(j as int)),
            decreases self.elements@.len() - j,
        {
            let e = &self.elements[j];
            let mut k: usize = 0;
            while k < e.len()
                invariant
                    k <= e@.len(),
                    e@ == self@[j as int],
                    j < self.elements@.len(),
                    v == self@,
                    out@ == flattened(v.take(j as int)).add(e@.subrange(0, k as int)),
                decreases e@.len() - k,
            {
                out.push(e[k]);
                k = k + 1;
                proof {
                    assert(out@ =~= flattened(v.take(j as int)).add(e@.subrange(0, k as int)));
                }
            }
            out.push(0u8);
            j = j + 1;
            proof {
                assert(v.take(j as int).drop_last() =~= v.take(j as int - 1));
                assert(out@ =~= flattened(v.take(j as int)));
            }
        }
        proof {
            assert(v.take(self.elements@.len() as int) =~= v);
        }
        out
    }
}

/// Whether `v` holds the byte `b`.
fn contains_byte(v: &Vec<u8>, b: u8) -> (r: bool)
    ensures
        r == v@.contains(b),
{
    let mut i: usize = 0;
    while i < v.len()
        invariant
            i <= v@.len(),
            forall|k: int| 0 <= k < i ==> v@[k] != b,
        decreases v@.len() - i,
    {
        if v[i] == b {
            return true;
        }
        i = i + 1;
    }
    false
}

} // verus!
