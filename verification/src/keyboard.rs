use vstd::prelude::*;

verus! {

/// How many logical keys the latch has.
pub const KEY_COUNT: usize = 16;

/// Whether `keys` has no key down below index `limit`.
pub open spec fn none_down_below(keys: Seq<bool>, limit: int) -> bool {
    forall|j: int| 0 <= j < limit && j < keys.len() ==> !keys[j]
}

/// The lowest index at or after `from` whose key is down, if there is one.
pub open spec fn first_down_from(keys: Seq<bool>, from: int) -> Option<u8>
    decreases keys.len() - from,
{
    if from < 0 || from >= keys.len() {
        None
    } else if keys[from] {
        Some(from as u8)
    } else {
        first_down_from(keys, from + 1)
    }
}

/// The lowest key that is down, if any key is.
pub open spec fn first_down(keys: Seq<bool>) -> Option<u8> {
    first_down_from(keys, 0)
}

/// `first_down_from` returns the lowest key at or after `from` that is down,
/// and `None` exactly when there is none.
pub proof fn lemma_first_down_from(keys: Seq<bool>, from: int)
    requires
        keys.len() <= 256,
        0 <= from <= keys.len(),
    ensures
        match first_down_from(keys, from) {
            Some(k) => from <= k < keys.len() && keys[k as int] && forall|j: int|
                from <= j < k ==> !keys[j],
            None => forall|j: int| from <= j < keys.len() ==> !keys[j],
        },
    decreases keys.len() - from,
{
    if from < keys.len() && !keys[from] {
        lemma_first_down_from(keys, from + 1);
    }
}

/// `first_down` is the lowest key that is down, and `None` exactly when no
/// key is down.
pub proof fn lemma_first_down(keys: Seq<bool>)
    requires
        keys.len() <= 256,
    ensures
        match first_down(keys) {
            Some(k) => k < keys.len() && keys[k as int] && none_down_below(keys, k as int),
            None => none_down_below(keys, keys.len() as int),
        },
{
    lemma_first_down_from(keys, 0);
}

/// The input latch: which of the sixteen logical keys are held down.
pub struct KeyBoard {
    keys: [bool; KEY_COUNT],
}

impl View for KeyBoard {
    type V = Seq<bool>;

    closed spec fn view(&self) -> Seq<bool> {
        self.keys@
    }
}

impl KeyBoard {
    /// The view always has one entry for each logical key.
    pub proof fn lemma_view_len(&self)
        ensures
            self@.len() == KEY_COUNT,
    {
    }

    /// A latch with every key up.
    pub fn new() -> (keyboard: Self)
        ensures
            keyboard@ == Seq::new(KEY_COUNT as nat, |k: int| false),
    {
        let keyboard = Self { keys: [false;KEY_COUNT] };
        assert(keyboard@ =~= Seq::new(KEY_COUNT as nat, |k: int| false));
        keyboard
    }

    pub fn key_down(&mut self, key: u8)
        requires
            key < KEY_COUNT,
        ensures
            final(self)@ == old(self)@.update(key as int, true),
    {
        self.keys[key as usize] = true;
    }

    pub fn key_up(&mut self, key: u8)
        requires
            key < KEY_COUNT,
        ensures
            final(self)@ == old(self)@.update(key as int, false),
    {
        self.keys[key as usize] = false;
    }

    pub fn is_key_down(&self, key: u8) -> (down: bool)
        requires
            key < KEY_COUNT,
        ensures
            down == self@[key as int],
    {
        self.keys[key as usize]
    }

    /// The lowest key that is down.
    pub fn first_down_key(&self) -> (found: Option<u8>)
        ensures
            found == first_down(self@),
            match found {
                Some(k) => k < KEY_COUNT && self@[k as int] && none_down_below(self@, k as int),
                None => none_down_below(self@, KEY_COUNT as int),
            },
    {
        let mut k: usize = 0;
        while k < KEY_COUNT
            invariant
                k <= KEY_COUNT,
                self@.len() == KEY_COUNT,
                first_down(self@) == first_down_from(self@, k as int),
            decreases KEY_COUNT - k,
        {
            if self.keys[k] {
                proof {
                    lemma_first_down(self@);
                }
                return Some(k as u8);
            }
            k += 1;
        }
        proof {
            lemma_first_down(self@);
        }
        None
    }
}

impl Default for KeyBoard {
    fn default() -> (keyboard: Self)
        ensures
            keyboard@ == Seq::new(KEY_COUNT as nat, |k: int| false),
    {
        Self::new()
    }
}

} // verus!
