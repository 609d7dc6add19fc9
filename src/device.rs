//! Choosing what to create the device on: wide strings as the system API
//! takes them, the adapter to use and the feature levels to try.
use vstd::prelude::*;

verus! {

/// The UTF-16 code units of one character.
pub open spec fn utf16_units(c: char) -> Seq<u16> {
    let v = c as u32 as int;
    if v < 0x10000 {
        seq![v as u16]
    } else {
        seq![(0xD800 + (v - 0x10000) / 0x400) as u16, (0xDC00 + (v - 0x10000) % 0x400) as u16]
    }
}

/// The UTF-16 encoding of a character sequence.
pub open spec fn utf16_of(s: Seq<char>) -> Seq<u16>
    decreases s.len(),
{
    if s.len() == 0 {
        seq![]
    } else {
        utf16_of(s.drop_last()) + utf16_units(s.last())
    }
}

/// Encodes a string as a NUL-terminated UTF-16 string.
pub fn utf16_to_vec(source: &str) -> (r: Vec<u16>)
    ensures
        r@ == utf16_of(source@).push(0),
{
    let n = source.unicode_len();
    let mut out: Vec<u16> = Vec::new();
    let mut i: usize = 0;
    while i < n
        invariant
            n == source@.len(),
            i <= n,
            out@ == utf16_of(source@.subrange(0, i as int)),
        decreases n - i,
    {
        let c = source.get_char(i);
        let v = c as u32;
        if v < 0x10000 {
            out.push(v as u16);
        } else {
            let w = v - 0x10000;
            out.push((0xD800 + w / 0x400) as u16);
            out.push((0xDC00 + w % 0x400) as u16);
        }
        assert(source@.subrange(0, i + 1).drop_last() =~= source@.subrange(0, i as int));
        i += 1;
    }
    assert(source@.subrange(0, n as int) =~= source@);
    out.push(0);
    out
}

/// Whether two wide strings hold the same code units.
pub fn units_equal(a: &Vec<u16>, b: &Vec<u16>) -> (r: bool)
    ensures
        r == (a@ == b@),
{
    if a.len() != b.len() {
        return false;
    }
    let mut i: usize = 0;
    while i < a.len()
        invariant
            a@.len() == b@.len(),
            i <= a@.len(),
            forall|j: int| 0 <= j < i ==> a@[j] == b@[j],
        decreases a@.len() - i,
    {
        if a[i] != b[i] {
            return false;
        }
        i += 1;
    }
    assert(a@ =~= b@);
    true
}

/// The adapter to create the device on: the first, in enumeration order,
/// whose description is not `excluded`; `None` when every one is.
pub fn select_adapter(descriptions: &Vec<Vec<u16>>, excluded: &Vec<u16>) -> (r: Option<usize>)
    ensures
        r matches Some(i) ==> {
            &&& i < descriptions@.len()
            &&& descriptions@[i as int]@ != excluded@
            &&& forall|j: int| 0 <= j < i ==> descriptions@[j]@ == excluded@
        },
        r is None ==> forall|j: int| 0 <= j < descriptions@.len() ==> descriptions@[j]@ == excluded@,
{
    let mut i: usize = 0;
    while i < descriptions.len()
        invariant
            i <= descriptions@.len(),
            forall|j: int| 0 <= j < i ==> descriptions@[j]@ == excluded@,
        decreases descriptions@.len() - i,
    {
        if !units_equal(&descriptions[i], excluded) {
            return Some(i);
        }
        i += 1;
    }
    None
}

/// `D3D_FEATURE_LEVEL_12_1`.
pub const FEATURE_LEVEL_12_1: u32 = 0xc100;

/// `D3D_FEATURE_LEVEL_12_0`.
pub const FEATURE_LEVEL_12_0: u32 = 0xc000;

/// `D3D_FEATURE_LEVEL_11_1`.
pub const FEATURE_LEVEL_11_1: u32 = 0xb100;

/// `D3D_FEATURE_LEVEL_11_0`.
pub const FEATURE_LEVEL_11_0: u32 = 0xb000;

/// The feature levels to request a device at, most capable first; the device
/// is created at the first level that succeeds.
pub fn feature_levels() -> (r: Vec<u32>)
    ensures
        r@ == seq![FEATURE_LEVEL_12_1, FEATURE_LEVEL_12_0, FEATURE_LEVEL_11_1, FEATURE_LEVEL_11_0],
{
    let mut v: Vec<u32> = Vec::new();
    v.push(FEATURE_LEVEL_12_1);
    v.push(FEATURE_LEVEL_12_0);
    v.push(FEATURE_LEVEL_11_1);
    v.push(FEATURE_LEVEL_11_0);
    assert(v@ =~= seq![FEATURE_LEVEL_12_1, FEATURE_LEVEL_12_0, FEATURE_LEVEL_11_1, FEATURE_LEVEL_11_0]);
    v
}

/// What to do after asking for a device at one of the feature levels.
#[derive(Clone, Copy, Debug, PartialEq, Eq, Structural)]
pub enum LevelStep {
    /// The device was created; stop.
    Created,
    /// Ask again at the level with this index.
    Next(usize),
    /// Every level was tried and none succeeded.
    Exhausted,
}

/// Decides the next step after the attempt at level `index` of `count`
/// levels returned `hr`: stop on `S_OK`, else move to the next level while
/// one is left.
pub fn feature_level_step(count: usize, index: usize, hr: i32) -> (r: LevelStep)
    ensures
        hr == crate::hresult::S_OK ==> r == LevelStep::Created,
        hr != crate::hresult::S_OK && index + 1 < count ==> r == LevelStep::Next((index + 1) as usize),
        hr != crate::hresult::S_OK && index + 1 >= count ==> r == LevelStep::Exhausted,
{
    if hr == crate::hresult::S_OK {
        LevelStep::Created
    } else if index < count && index + 1 < count {
        LevelStep::Next(index + 1)
    } else {
        LevelStep::Exhausted
    }
}

} // verus!
