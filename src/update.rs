use vstd::prelude::*;

verus! {

/// Number of keys in the tracked vocabulary.
pub const KEY_COUNT: usize = 41;

/// A key of the tracked vocabulary: enter, the four arrows, the digits and the letters.
#[derive(Clone, Copy, Debug, PartialEq, Eq, Structural)]
pub enum Key {
    Enter,
    ArrowLeft,
    ArrowUp,
    ArrowRight,
    ArrowDown,
    Digit0,
    Digit1,
    Digit2,
    Digit3,
    Digit4,
    Digit5,
    Digit6,
    Digit7,
    Digit8,
    Digit9,
    KeyA,
    KeyB,
    KeyC,
    KeyD,
    KeyE,
    KeyF,
    KeyG,
    KeyH,
    KeyI,
    KeyJ,
    KeyK,
    KeyL,
    KeyM,
    KeyN,
    KeyO,
    KeyP,
    KeyQ,
    KeyR,
    KeyS,
    KeyT,
    KeyU,
    KeyV,
    KeyW,
    KeyX,
    KeyY,
    KeyZ,
}

impl Key {
    /// The position of the key's flag in a `KeyEvent`.
    pub open spec fn slot(self) -> int {
        match self {
            Key::Enter => 0,
            Key::ArrowLeft => 1,
            Key::ArrowUp => 2,
            Key::ArrowRight => 3,
            Key::ArrowDown => 4,
            Key::Digit0 => 5,
            Key::Digit1 => 6,
            Key::Digit2 => 7,
            Key::Digit3 => 8,
            Key::Digit4 => 9,
            Key::Digit5 => 10,
            Key::Digit6 => 11,
            Key::Digit7 => 12,
            Key::Digit8 => 13,
            Key::Digit9 => 14,
            Key::KeyA => 15,
            Key::KeyB => 16,
            Key::KeyC => 17,
            Key::KeyD => 18,
            Key::KeyE => 19,
            Key::KeyF => 20,
            Key::KeyG => 21,
            Key::KeyH => 22,
            Key::KeyI => 23,
            Key::KeyJ => 24,
            Key::KeyK => 25,
            Key::KeyL => 26,
            Key::KeyM => 27,
            Key::KeyN => 28,
            Key::KeyO => 29,
            Key::KeyP => 30,
            Key::KeyQ => 31,
            Key::KeyR => 32,
            Key::KeyS => 33,
            Key::KeyT => 34,
            Key::KeyU => 35,
            Key::KeyV => 36,
            Key::KeyW => 37,
            Key::KeyX => 38,
            Key::KeyY => 39,
            Key::KeyZ => 40,
        }
    }

    /// The raw key code that the host reports for this key.
    pub open spec fn spec_code(self) -> u32 {
        code_of_slot(self.slot())
    }

    /// The position of the key's flag in a `KeyEvent`.
    pub fn index(&self) -> (r: usize)
        ensures
            r == self.slot(),
            r < KEY_COUNT,
    {
        match self {
            Key::Enter => 0,
            Key::ArrowLeft => 1,
            Key::ArrowUp => 2,
            Key::ArrowRight => 3,
            Key::ArrowDown => 4,
            Key::Digit0 => 5,
            Key::Digit1 => 6,
            Key::Digit2 => 7,
            Key::Digit3 => 8,
            Key::Digit4 => 9,
            Key::Digit5 => 10,
            Key::Digit6 => 11,
            Key::Digit7 => 12,
            Key::Digit8 => 13,
            Key::Digit9 => 14,
            Key::KeyA => 15,
            Key::KeyB => 16,
            Key::KeyC => 17,
            Key::KeyD => 18,
            Key::KeyE => 19,
            Key::KeyF => 20,
            Key::KeyG => 21,
            Key::KeyH => 22,
            Key::KeyI => 23,
            Key::KeyJ => 24,
            Key::KeyK => 25,
            Key::KeyL => 26,
            Key::KeyM => 27,
            Key::KeyN => 28,
            Key::KeyO => 29,
            Key::KeyP => 30,
            Key::KeyQ => 31,
            Key::KeyR => 32,
            Key::KeyS => 33,
            Key::KeyT => 34,
            Key::KeyU => 35,
            Key::KeyV => 36,
            Key::KeyW => 37,
            Key::KeyX => 38,
            Key::KeyY => 39,
            Key::KeyZ => 40,
        }
    }

    /// The raw key code that the host reports for this key.
    pub fn code(&self) -> (r: u32)
        ensures
            r == self.spec_code(),
    {
        code_for_slot(self.index())
    }
}

/// The raw key code of the key whose flag sits at `slot`: enter is 13, the arrows
/// 37 to 40 (left, up, right, down), the digits 48 to 57 and the letters 65 to 90.
pub open spec fn code_of_slot(slot: int) -> u32 {
    if slot == 0 {
        13
    } else if 1 <= slot <= 4 {
        (slot + 36) as u32
    } else if 5 <= slot <= 14 {
        (slot + 43) as u32
    } else if 15 <= slot <= 40 {
        (slot + 50) as u32
    } else {
        0
    }
}

/// The flag that a raw key code stands for, if the code is one of the vocabulary.
pub open spec fn slot_of_code(code: u32) -> Option<int> {
    if code == 13 {
        Some(0)
    } else if 37 <= code <= 40 {
        Some(code - 36)
    } else if 48 <= code <= 57 {
        Some(code - 43)
    } else if 65 <= code <= 90 {
        Some(code - 50)
    } else {
        None
    }
}

/// Whether some key of the vocabulary has this raw code.
pub open spec fn is_mapped(code: u32) -> bool {
    exists|k: Key| k.spec_code() == code
}

/// The flags after the key with raw code `code` went down (`down`) or up; a code
/// outside the vocabulary leaves them as they were.
pub open spec fn with_key(flags: Seq<bool>, code: u32, down: bool) -> Seq<bool> {
    match slot_of_code(code) {
        Some(i) => flags.update(i, down),
        None => flags,
    }
}

fn code_for_slot(slot: usize) -> (r: u32)
    requires
        slot < KEY_COUNT,
    ensures
        r == code_of_slot(slot as int),
{
    if slot == 0 {
        13
    } else if slot <= 4 {
        slot as u32 + 36
    } else if slot <= 14 {
        slot as u32 + 43
    } else {
        slot as u32 + 50
    }
}

/// The flag that a raw key code stands for, if the code is one of the vocabulary.
pub fn slot_for_code(code: u32) -> (r: Option<usize>)
    ensures
        r matches Some(i) ==> slot_of_code(code) == Some(i as int) && i < KEY_COUNT,
        r is None ==> slot_of_code(code) is None,
{
    if code == 13 {
        Some(0)
    } else if 37 <= code && code <= 40 {
        Some((code - 36) as usize)
    } else if 48 <= code && code <= 57 {
        Some((code - 43) as usize)
    } else if 65 <= code && code <= 90 {
        Some((code - 50) as usize)
    } else {
        None
    }
}

/// Which keys of the vocabulary are held down: one flag per key, a level and not a count.
#[derive(Debug)]
pub struct KeyEvent {
    pressed: [bool; 41],
}

impl View for KeyEvent {
    type V = Seq<bool>;

    closed spec fn view(&self) -> Seq<bool> {
        self.pressed@
    }
}

impl KeyEvent {
    /// Whether `key` is held down.
    pub open spec fn down(&self, key: Key) -> bool {
        self@[key.slot()]
    }

    /// A state in which no key is held down.
    pub fn new() -> (r: Self)
        ensures
            r@.len() == KEY_COUNT,
            forall|i: int| 0 <= i < KEY_COUNT ==> !r@[i],
    {
        KeyEvent { pressed: [false; 41] }
    }

    /// The number of flags, one per key.
    pub proof fn lemma_len(&self)
        ensures
            self@.len() == KEY_COUNT,
    {
    }

    /// Whether `key` is held down.
    pub fn is_down(&self, key: Key) -> (r: bool)
        ensures
            r == self.down(key),
    {
        self.pressed[key.index()]
    }

    /// Records that the key with raw code `key_code` went down; other codes are ignored.
    pub fn update_on_keydown(&mut self, key_code: u32)
        ensures
            final(self)@ == with_key(old(self)@, key_code, true),
    {
        if let Some(i) = slot_for_code(key_code) {
            self.pressed[i] = true;
        }
    }

    /// Records that the key with raw code `key_code` went up; other codes are ignored.
    pub fn update_on_keyup(&mut self, key_code: u32)
        ensures
            final(self)@ == with_key(old(self)@, key_code, false),
    {
        if let Some(i) = slot_for_code(key_code) {
            self.pressed[i] = false;
        }
    }

    /// Whether the Enter key is held down.
    pub fn is_enter_down(&self) -> (r: bool)
        ensures
            r == self.down(Key::Enter),
    {
        self.pressed[0]
    }

    /// Whether the ArrowLeft key is held down.
    pub fn is_arrow_left_down(&self) -> (r: bool)
        ensures
            r == self.down(Key::ArrowLeft),
    {
        self.pressed[1]
    }

    /// Whether the ArrowUp key is held down.
    pub fn is_arrow_up_down(&self) -> (r: bool)
        ensures
            r == self.down(Key::ArrowUp),
    {
        self.pressed[2]
    }

    /// Whether the ArrowRight key is held down.
    pub fn is_arrow_right_down(&self) -> (r: bool)
        ensures
            r == self.down(Key::ArrowRight),
    {
        self.pressed[3]
    }

    /// Whether the ArrowDown key is held down.
    pub fn is_arrow_down_down(&self) -> (r: bool)
        ensures
            r == self.down(Key::ArrowDown),
    {
        self.pressed[4]
    }

    /// Whether the Digit0 key is held down.
    pub fn is_digit_0_down(&self) -> (r: bool)
        ensures
            r == self.down(Key::Digit0),
    {
        self.pressed[5]
    }

    /// Whether the Digit1 key is held down.
    pub fn is_digit_1_down(&self) -> (r: bool)
        ensures
            r == self.down(Key::Digit1),
    {
        self.pressed[6]
    }

    /// Whether the Digit2 key is held down.
    pub fn is_digit_2_down(&self) -> (r: bool)
        ensures
            r == self.down(Key::Digit2),
    {
        self.pressed[7]
    }

    /// Whether the Digit3 key is held down.
    pub fn is_digit_3_down(&self) -> (r: bool)
        ensures
            r == self.down(Key::Digit3),
    {
        self.pressed[8]
    }

    /// Whether the Digit4 key is held down.
    pub fn is_digit_4_down(&self) -> (r: bool)
        ensures
            r == self.down(Key::Digit4),
    {
        self.pressed[9]
    }

    /// Whether the Digit5 key is held down.
    pub fn is_digit_5_down(&self) -> (r: bool)
        ensures
            r == self.down(Key::Digit5),
    {
        self.pressed[10]
    }

    /// Whether the Digit6 key is held down.
    pub fn is_digit_6_down(&self) -> (r: bool)
        ensures
            r == self.down(Key::Digit6),
    {
        self.pressed[11]
    }

    /// Whether the Digit7 key is held down.
    pub fn is_digit_7_down(&self) -> (r: bool)
        ensures
            r == self.down(Key::Digit7),
    {
        self.pressed[12]
    }

    /// Whether the Digit8 key is held down.
    pub fn is_digit_8_down(&self) -> (r: bool)
        ensures
            r == self.down(Key::Digit8),
    {
        self.pressed[13]
    }

    /// Whether the Digit9 key is held down.
    pub fn is_digit_9_down(&self) -> (r: bool)
        ensures
            r == self.down(Key::Digit9),
    {
        self.pressed[14]
    }

    /// Whether the KeyA key is held down.
    pub fn is_key_a_down(&self) -> (r: bool)
        ensures
            r == self.down(Key::KeyA),
    {
        self.pressed[15]
    }

    /// Whether the KeyB key is held down.
    pub fn is_key_b_down(&self) -> (r: bool)
        ensures
            r == self.down(Key::KeyB),
    {
        self.pressed[16]
    }

    /// Whether the KeyC key is held down.
    pub fn is_key_c_down(&self) -> (r: bool)
        ensures
            r == self.down(Key::KeyC),
    {
        self.pressed[17]
    }

    /// Whether the KeyD key is held down.
    pub fn is_key_d_down(&self) -> (r: bool)
        ensures
            r == self.down(Key::KeyD),
    {
        self.pressed[18]
    }

    /// Whether the KeyE key is held down.
    pub fn is_key_e_down(&self) -> (r: bool)
        ensures
            r == self.down(Key::KeyE),
    {
        self.pressed[19]
    }

    /// Whether the KeyF key is held down.
    pub fn is_key_f_down(&self) -> (r: bool)
        ensures
            r == self.down(Key::KeyF),
    {
        self.pressed[20]
    }

    /// Whether the KeyG key is held down.
    pub fn is_key_g_down(&self) -> (r: bool)
        ensures
            r == self.down(Key::KeyG),
    {
        self.pressed[21]
    }

    /// Whether the KeyH key is held down.
    pub fn is_key_h_down(&self) -> (r: bool)
        ensures
            r == self.down(Key::KeyH),
    {
        self.pressed[22]
    }

    /// Whether the KeyI key is held down.
    pub fn is_key_i_down(&self) -> (r: bool)
        ensures
            r == self.down(Key::KeyI),
    {
        self.pressed[23]
    }

    /// Whether the KeyJ key is held down.
    pub fn is_key_j_down(&self) -> (r: bool)
        ensures
            r == self.down(Key::KeyJ),
    {
        self.pressed[24]
    }

    /// Whether the KeyK key is held down.
    pub fn is_key_k_down(&self) -> (r: bool)
        ensures
            r == self.down(Key::KeyK),
    {
        self.pressed[25]
    }

    /// Whether the KeyL key is held down.
    pub fn is_key_l_down(&self) -> (r: bool)
        ensures
            r == self.down(Key::KeyL),
    {
        self.pressed[26]
    }

    /// Whether the KeyM key is held down.
    pub fn is_key_m_down(&self) -> (r: bool)
        ensures
            r == self.down(Key::KeyM),
    {
        self.pressed[27]
    }

    /// Whether the KeyN key is held down.
    pub fn is_key_n_down(&self) -> (r: bool)
        ensures
            r == self.down(Key::KeyN),
    {
        self.pressed[28]
    }

    /// Whether the KeyO key is held down.
    pub fn is_key_o_down(&self) -> (r: bool)
        ensures
            r == self.down(Key::KeyO),
    {
        self.pressed[29]
    }

    /// Whether the KeyP key is held down.
    pub fn is_key_p_down(&self) -> (r: bool)
        ensures
            r == self.down(Key::KeyP),
    {
        self.pressed[30]
    }

    /// Whether the KeyQ key is held down.
    pub fn is_key_q_down(&self) -> (r: bool)
        ensures
            r == self.down(Key::KeyQ),
    {
        self.pressed[31]
    }

    /// Whether the KeyR key is held down.
    pub fn is_key_r_down(&self) -> (r: bool)
        ensures
            r == self.down(Key::KeyR),
    {
        self.pressed[32]
    }

    /// Whether the KeyS key is held down.
    pub fn is_key_s_down(&self) -> (r: bool)
        ensures
            r == self.down(Key::KeyS),
    {
        self.pressed[33]
    }

    /// Whether the KeyT key is held down.
    pub fn is_key_t_down(&self) -> (r: bool)
        ensures
            r == self.down(Key::KeyT),
    {
        self.pressed[34]
    }

    /// Whether the KeyU key is held down.
    pub fn is_key_u_down(&self) -> (r: bool)
        ensures
            r == self.down(Key::KeyU),
    {
        self.pressed[35]
    }

    /// Whether the KeyV key is held down.
    pub fn is_key_v_down(&self) -> (r: bool)
        ensures
            r == self.down(Key::KeyV),
    {
        self.pressed[36]
    }

    /// Whether the KeyW key is held down.
    pub fn is_key_w_down(&self) -> (r: bool)
        ensures
            r == self.down(Key::KeyW),
    {
        self.pressed[37]
    }

    /// Whether the KeyX key is held down.
    pub fn is_key_x_down(&self) -> (r: bool)
        ensures
            r == self.down(Key::KeyX),
    {
        self.pressed[38]
    }

    /// Whether the KeyY key is held down.
    pub fn is_key_y_down(&self) -> (r: bool)
        ensures
            r == self.down(Key::KeyY),
    {
        self.pressed[39]
    }

    /// Whether the KeyZ key is held down.
    pub fn is_key_z_down(&self) -> (r: bool)
        ensures
            r == self.down(Key::KeyZ),
    {
        self.pressed[40]
    }
}

/// The key whose flag sits at `slot`.
pub open spec fn key_at(slot: int) -> Key {
    if slot == 0 {
        Key::Enter
    } else if slot == 1 {
        Key::ArrowLeft
    } else if slot == 2 {
        Key::ArrowUp
    } else if slot == 3 {
        Key::ArrowRight
    } else if slot == 4 {
        Key::ArrowDown
    } else if slot == 5 {
        Key::Digit0
    } else if slot == 6 {
        Key::Digit1
    } else if slot == 7 {
        Key::Digit2
    } else if slot == 8 {
        Key::Digit3
    } else if slot == 9 {
        Key::Digit4
    } else if slot == 10 {
        Key::Digit5
    } else if slot == 11 {
        Key::Digit6
    } else if slot == 12 {
        Key::Digit7
    } else if slot == 13 {
        Key::Digit8
    } else if slot == 14 {
        Key::Digit9
    } else if slot == 15 {
        Key::KeyA
    } else if slot == 16 {
        Key::KeyB
    } else if slot == 17 {
        Key::KeyC
    } else if slot == 18 {
        Key::KeyD
    } else if slot == 19 {
        Key::KeyE
    } else if slot == 20 {
        Key::KeyF
    } else if slot == 21 {
        Key::KeyG
    } else if slot == 22 {
        Key::KeyH
    } else if slot == 23 {
        Key::KeyI
    } else if slot == 24 {
        Key::KeyJ
    } else if slot == 25 {
        Key::KeyK
    } else if slot == 26 {
        Key::KeyL
    } else if slot == 27 {
        Key::KeyM
    } else if slot == 28 {
        Key::KeyN
    } else if slot == 29 {
        Key::KeyO
    } else if slot == 30 {
        Key::KeyP
    } else if slot == 31 {
        Key::KeyQ
    } else if slot == 32 {
        Key::KeyR
    } else if slot == 33 {
        Key::KeyS
    } else if slot == 34 {
        Key::KeyT
    } else if slot == 35 {
        Key::KeyU
    } else if slot == 36 {
        Key::KeyV
    } else if slot == 37 {
        Key::KeyW
    } else if slot == 38 {
        Key::KeyX
    } else if slot == 39 {
        Key::KeyY
    } else {
        Key::KeyZ
    }
}

proof fn lemma_code_slot_round_trip(slot: int)
    requires
        0 <= slot < KEY_COUNT,
    ensures
        slot_of_code(code_of_slot(slot)) == Some(slot),
        key_at(slot).slot() == slot,
{
}

/// Every key has its own flag: its code is in the vocabulary and leads back to its slot.
pub proof fn lemma_key_code(k: Key)
    ensures
        0 <= k.slot() < KEY_COUNT,
        slot_of_code(k.spec_code()) == Some(k.slot()),
        is_mapped(k.spec_code()),
{
    lemma_code_slot_round_trip(k.slot());
}

/// Pressing a key's code leaves that key down, releasing it leaves it up, and no
/// other flag changes either way.
pub proof fn lemma_press_release(s: KeyEvent, k: Key, down: bool)
    ensures
        with_key(s@, k.spec_code(), true)[k.slot()],
        !with_key(s@, k.spec_code(), false)[k.slot()],
        with_key(s@, k.spec_code(), down).len() == s@.len(),
        forall|j: int|
            0 <= j < s@.len() && j != k.slot() ==> #[trigger] with_key(s@, k.spec_code(), down)[j]
                == s@[j],
{
    s.lemma_len();
    lemma_key_code(k);
}

/// A code that no key of the vocabulary has changes no flag, pressed or released.
pub proof fn lemma_unmapped_code_ignored(s: KeyEvent, code: u32, down: bool)
    requires
        !is_mapped(code),
    ensures
        with_key(s@, code, down) == s@,
{
    if let Some(i) = slot_of_code(code) {
        lemma_code_slot_round_trip(i);
        assert(key_at(i).spec_code() == code);
    }
}

/// The flags are a level: pressing or releasing the same key twice is the same as once.
pub proof fn lemma_repeat_is_idempotent(s: KeyEvent, code: u32, down: bool)
    ensures
        with_key(with_key(s@, code, down), code, down) == with_key(s@, code, down),
{
    if slot_of_code(code) is Some {
        assert(with_key(with_key(s@, code, down), code, down) =~= with_key(s@, code, down));
    }
}

} // verus!
