//! Input mapper: the fixed table from physical key identifiers to the
//! platform's 16 virtual key codes, and the distinguished quit and step keys.
//!
//! A physical key identifier is the ASCII code of the key's conventional
//! label, letters taken in lower case, which is also how the host input
//! layer numbers these keys.

use vstd::prelude::*;

verus! {

/// Physical identifier of the escape key; it signals quit from any mode.
pub const KEY_ESCAPE: i32 = 27;

/// Physical identifier of the space key, the designated single-step key.
pub const KEY_STEP: i32 = 32;

/// The fixed keypad table: the virtual code (0x0 to 0xF) of a physical key,
/// or `None` for a key with no table entry. The hexadecimal keypad layout
/// maps the 4x4 block of keys 1-2-3-4, q-w-e-r, a-s-d-f, z-x-c-v.
pub open spec fn key_mapping(key: i32) -> Option<u8> {
    if key == 120 {
        Some(0x0u8)  // x
    } else if key == 49 {
        Some(0x1u8)  // 1
    } else if key == 50 {
        Some(0x2u8)  // 2
    } else if key == 51 {
        Some(0x3u8)  // 3
    } else if key == 113 {
        Some(0x4u8)  // q
    } else if key == 119 {
        Some(0x5u8)  // w
    } else if key == 101 {
        Some(0x6u8)  // e
    } else if key == 97 {
        Some(0x7u8)  // a
    } else if key == 115 {
        Some(0x8u8)  // s
    } else if key == 100 {
        Some(0x9u8)  // d
    } else if key == 122 {
        Some(0xAu8)  // z
    } else if key == 99 {
        Some(0xBu8)  // c
    } else if key == 52 {
        Some(0xCu8)  // 4
    } else if key == 114 {
        Some(0xDu8)  // r
    } else if key == 102 {
        Some(0xEu8)  // f
    } else if key == 118 {
        Some(0xFu8)  // v
    } else {
        None
    }
}

/// The keypad table as a sequence of (physical key, virtual code) pairs,
/// in keypad-code order.
pub open spec fn key_table() -> Seq<(i32, u8)> {
    seq![
        (120i32, 0x0u8),
        (49i32, 0x1u8),
        (50i32, 0x2u8),
        (51i32, 0x3u8),
        (113i32, 0x4u8),
        (119i32, 0x5u8),
        (101i32, 0x6u8),
        (97i32, 0x7u8),
        (115i32, 0x8u8),
        (100i32, 0x9u8),
        (122i32, 0xAu8),
        (99i32, 0xBu8),
        (52i32, 0xCu8),
        (114i32, 0xDu8),
        (102i32, 0xEu8),
        (118i32, 0xFu8),
    ]
}

/// The immutable physical-to-virtual key mapping, fixed at startup and
/// never mutated.
pub struct KeyMap {
    entries: Vec<(i32, u8)>,
}

impl View for KeyMap {
    type V = Seq<(i32, u8)>;

    closed spec fn view(&self) -> Seq<(i32, u8)> {
        self.entries@
    }
}

impl KeyMap {
    /// Well-formedness: the map holds exactly the fixed keypad table.
    pub open spec fn wf(self) -> bool {
        self@ == key_table()
    }

    /// Look a physical key up: its virtual code, or `None` for a key with
    /// no table entry.
    pub fn get(&self, key: i32) -> (r: Option<u8>)
        requires
            self.wf(),
        ensures
            r == key_mapping(key),
    {
        let n: usize = self.entries.len();
        let mut i: usize = 0;
        while i < n
            invariant
                self.wf(),
                n == self.entries.len(),
                0 <= i <= n,
                forall|j: int| 0 <= j < i ==> (#[trigger] key_table()[j]).0 != key,
            decreases n - i,
        {
            let (k, v) = self.entries[i];
            if k == key {
                return Some(v);
            }
            i += 1;
        }
        None
    }
}

/// Build the fixed keypad table.
pub fn default_keyboard_mappings() -> (km: KeyMap)
    ensures
        km.wf(),
{
    let mut entries: Vec<(i32, u8)> = Vec::new();
    entries.push((120, 0x0));
    entries.push((49, 0x1));
    entries.push((50, 0x2));
    entries.push((51, 0x3));
    entries.push((113, 0x4));
    entries.push((119, 0x5));
    entries.push((101, 0x6));
    entries.push((97, 0x7));
    entries.push((115, 0x8));
    entries.push((100, 0x9));
    entries.push((122, 0xA));
    entries.push((99, 0xB));
    entries.push((52, 0xC));
    entries.push((114, 0xD));
    entries.push((102, 0xE));
    entries.push((118, 0xF));
    let km = KeyMap { entries };
    proof {
        assert(km@ =~= key_table());
    }
    km
}

} // verus!
