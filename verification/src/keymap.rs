use crate::error::Chip8Error;
use crate::keyboard::KEY_COUNT;
use std::collections::HashMap;
use vstd::prelude::*;

verus! {

broadcast use vstd::std_specs::hash::group_hash_axioms;

/// The default table from host scancodes to logical keys: the left block of
/// a keyboard, `X` for key 0, `1 2 3` for keys 1 to 3, `Q W E` for 4 to 6,
/// `A S D` for 7 to 9, `Z` and `C` for A and B, and `4 R F V` for C to F.
pub open spec fn default_layout() -> Map<i32, u8> {
    map![
        27i32 => 0x0u8,
        30i32 => 0x1u8,
        31i32 => 0x2u8,
        32i32 => 0x3u8,
        20i32 => 0x4u8,
        26i32 => 0x5u8,
        8i32 => 0x6u8,
        4i32 => 0x7u8,
        22i32 => 0x8u8,
        7i32 => 0x9u8,
        29i32 => 0xAu8,
        6i32 => 0xBu8,
        33i32 => 0xCu8,
        21i32 => 0xDu8,
        9i32 => 0xEu8,
        25i32 => 0xFu8,
    ]
}

/// The table that turns host scancodes into logical keys.
pub struct Sdl2KeyMap {
    scancodes_map: HashMap<i32, u8>,
}

impl View for Sdl2KeyMap {
    type V = Map<i32, u8>;

    closed spec fn view(&self) -> Map<i32, u8> {
        self.scancodes_map@
    }
}

impl Sdl2KeyMap {
    /// A table with the entries of `layout`, which must be sixteen.
    pub fn new(layout: &HashMap<i32, u8>) -> (made: Result<Self, Chip8Error>)
        ensures
            layout@.len() == KEY_COUNT ==> (made matches Ok(key_map) && key_map@ == layout@),
            layout@.len() != KEY_COUNT ==> made == Err::<Self, Chip8Error>(
                Chip8Error::BadKeyLayout { length: layout@.len() as usize },
            ),
    {
        let scancodes_map = layout.clone();
        if layout.len() != 16 {
            return Err(Chip8Error::BadKeyLayout { length: layout.len() });
        }
        Ok(Sdl2KeyMap { scancodes_map })
    }

    /// The logical key that the table gives for `scancode`, if it has one.
    pub fn scancode_to_key(&self, scancode: &i32) -> (key: Option<u8>)
        ensures
            key == (if self@.contains_key(*scancode) {
                Some(self@[*scancode])
            } else {
                None
            }),
    {
        match self.scancodes_map.get(scancode) {
            Some(key) => Some(*key),
            None => None,
        }
    }

    /// The entries of the default table.
    pub fn default_keyboard_layout() -> (layout: HashMap<i32, u8>)
        ensures
            layout@ == default_layout(),
            layout@.len() == KEY_COUNT,
    {
        let mut layout: HashMap<i32, u8> = HashMap::with_capacity(16);
        layout.insert(27, 0);
        layout.insert(30, 1);
        layout.insert(31, 2);
        layout.insert(32, 3);
        layout.insert(20, 4);
        layout.insert(26, 5);
        layout.insert(8, 6);
        layout.insert(4, 7);
        assert(layout@.len() == 8);
        layout.insert(22, 8);
        layout.insert(7, 9);
        layout.insert(29, 0xA);
        layout.insert(6, 0xB);
        assert(layout@.len() == 12);
        layout.insert(33, 0xC);
        layout.insert(21, 0xD);
        layout.insert(9, 0xE);
        layout.insert(25, 0xF);
        assert(layout@.len() == 16);
        assert(layout@ =~= default_layout());
        layout
    }
}

impl Default for Sdl2KeyMap {
    fn default() -> (key_map: Self)
        ensures
            key_map@ == default_layout(),
    {
        let layout = Self::default_keyboard_layout();
        Self::new(&layout).unwrap()
    }
}

} // verus!
