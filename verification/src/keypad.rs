use vstd::prelude::*;

verus! {

/// What typing on the keyboard means to a text field.
#[derive(Debug, Copy, Clone, PartialEq, Eq, Structural)]
pub enum TextEvent {
    Append(char),
    Delete,
    Submit,
    Cancel,
}

/// The keyboard keys the game listens to.
#[derive(Debug, Copy, Clone, PartialEq, Eq, Structural)]
pub enum KeyboardKey {
    Escape,
    Left,
    Up,
    Right,
    Down,
    Backspace,
    Return,
    Space,
    A,
    B,
    C,
    D,
    E,
    F,
    G,
    H,
    I,
    J,
    K,
    L,
    M,
    N,
    O,
    P,
    Q,
    R,
    S,
    T,
    U,
    V,
    W,
    X,
    Y,
    Z,
}

/// The Game Boy buttons.
#[derive(Debug, Copy, Clone, PartialEq, Eq, Structural)]
pub enum KeypadKey {
    Right,
    Left,
    Up,
    Down,
    A,
    B,
    Select,
    Start,
}

/// A Game Boy button going down or up.
#[derive(Debug, Copy, Clone, PartialEq, Eq, Structural)]
pub enum KeypadEvent {
    Down(KeypadKey),
    Up(KeypadKey),
}

/// A keyboard key going down (with the shift state) or up.
#[derive(Debug, Copy, Clone, PartialEq, Eq, Structural)]
pub enum KeyboardEvent {
    Down { key: KeyboardKey, shift: bool },
    Up { key: KeyboardKey },
}

/// The button a keyboard key stands for: the arrows or WASD for the
/// direction pad, Z or N for A, X or M for B, Return for Start and Space for
/// Select.
pub open spec fn keypad_key_of(key: KeyboardKey) -> Option<KeypadKey> {
    match key {
        KeyboardKey::Right | KeyboardKey::D => Some(KeypadKey::Right),
        KeyboardKey::Left | KeyboardKey::A => Some(KeypadKey::Left),
        KeyboardKey::Up | KeyboardKey::W => Some(KeypadKey::Up),
        KeyboardKey::Down | KeyboardKey::S => Some(KeypadKey::Down),
        KeyboardKey::Z | KeyboardKey::N => Some(KeypadKey::A),
        KeyboardKey::X | KeyboardKey::M => Some(KeypadKey::B),
        KeyboardKey::Return => Some(KeypadKey::Start),
        KeyboardKey::Space => Some(KeypadKey::Select),
        _ => None,
    }
}

/// The upper-case letter of a letter key.
pub open spec fn key_letter(key: KeyboardKey) -> Option<char> {
    match key {
        KeyboardKey::A => Some('A'),
        KeyboardKey::B => Some('B'),
        KeyboardKey::C => Some('C'),
        KeyboardKey::D => Some('D'),
        KeyboardKey::E => Some('E'),
        KeyboardKey::F => Some('F'),
        KeyboardKey::G => Some('G'),
        KeyboardKey::H => Some('H'),
        KeyboardKey::I => Some('I'),
        KeyboardKey::J => Some('J'),
        KeyboardKey::K => Some('K'),
        KeyboardKey::L => Some('L'),
        KeyboardKey::M => Some('M'),
        KeyboardKey::N => Some('N'),
        KeyboardKey::O => Some('O'),
        KeyboardKey::P => Some('P'),
        KeyboardKey::Q => Some('Q'),
        KeyboardKey::R => Some('R'),
        KeyboardKey::S => Some('S'),
        KeyboardKey::T => Some('T'),
        KeyboardKey::U => Some('U'),
        KeyboardKey::V => Some('V'),
        KeyboardKey::W => Some('W'),
        KeyboardKey::X => Some('X'),
        KeyboardKey::Y => Some('Y'),
        KeyboardKey::Z => Some('Z'),
        _ => None,
    }
}

/// The letter a letter key types: upper case with shift, lower case without.
pub open spec fn typed_letter(upper: char, shift: bool) -> char {
    if shift {
        upper
    } else {
        ((upper as u32) + 32) as char
    }
}

/// What a keyboard event means to a text field: Escape cancels, Backspace
/// deletes, Return submits, Space and the letters append, everything else
/// (the arrows, key releases) means nothing.
pub open spec fn text_event_of(event: KeyboardEvent) -> Option<TextEvent> {
    match event {
        KeyboardEvent::Down { key, shift } => match key {
            KeyboardKey::Escape => Some(TextEvent::Cancel),
            KeyboardKey::Backspace => Some(TextEvent::Delete),
            KeyboardKey::Return => Some(TextEvent::Submit),
            KeyboardKey::Space => Some(TextEvent::Append(' ')),
            _ => match key_letter(key) {
                Some(c) => Some(TextEvent::Append(typed_letter(c, shift))),
                None => None,
            },
        },
        KeyboardEvent::Up { .. } => None,
    }
}

/// The keypad event a keyboard event stands for, if any.
pub open spec fn keypad_event_of(event: KeyboardEvent) -> Option<KeypadEvent> {
    match event {
        KeyboardEvent::Down { key, .. } => match keypad_key_of(key) {
            Some(k) => Some(KeypadEvent::Down(k)),
            None => None,
        },
        KeyboardEvent::Up { key } => match keypad_key_of(key) {
            Some(k) => Some(KeypadEvent::Up(k)),
            None => None,
        },
    }
}

impl KeyboardKey {
    /// The button the key stands for, if any.
    pub fn into_keypad_key(self) -> (res: Option<KeypadKey>)
        ensures
            res == keypad_key_of(self),
    {
        match self {
            KeyboardKey::Right | KeyboardKey::D => Some(KeypadKey::Right),
            KeyboardKey::Left | KeyboardKey::A => Some(KeypadKey::Left),
            KeyboardKey::Up | KeyboardKey::W => Some(KeypadKey::Up),
            KeyboardKey::Down | KeyboardKey::S => Some(KeypadKey::Down),
            KeyboardKey::Z | KeyboardKey::N => Some(KeypadKey::A),
            KeyboardKey::X | KeyboardKey::M => Some(KeypadKey::B),
            KeyboardKey::Return => Some(KeypadKey::Start),
            KeyboardKey::Space => Some(KeypadKey::Select),
            _ => None,
        }
    }
}

impl KeyboardEvent {
    /// The keypad event the keyboard event stands for, if any.
    pub fn into_keypad_event(self) -> (res: Option<KeypadEvent>)
        ensures
            res == keypad_event_of(self),
    {
        match self {
            KeyboardEvent::Down { key, .. } => match key.into_keypad_key() {
                Some(k) => Some(KeypadEvent::Down(k)),
                None => None,
            },
            KeyboardEvent::Up { key } => match key.into_keypad_key() {
                Some(k) => Some(KeypadEvent::Up(k)),
                None => None,
            },
        }
    }

    /// What the keyboard event means to a text field, if anything.
    pub fn into_text_event(self) -> (res: Option<TextEvent>)
        ensures
            res == text_event_of(self),
    {
        match self {
            KeyboardEvent::Down { key: KeyboardKey::Escape, .. } => Some(TextEvent::Cancel),
            KeyboardEvent::Down { key: KeyboardKey::Left, .. } => None,
            KeyboardEvent::Down { key: KeyboardKey::Up, .. } => None,
            KeyboardEvent::Down { key: KeyboardKey::Right, .. } => None,
            KeyboardEvent::Down { key: KeyboardKey::Down, .. } => None,
            KeyboardEvent::Down { key: KeyboardKey::Backspace, .. } => Some(TextEvent::Delete),
            KeyboardEvent::Down { key: KeyboardKey::Return, .. } => Some(TextEvent::Submit),
            KeyboardEvent::Down { key: KeyboardKey::Space, .. } => Some(TextEvent::Append(' ')),
            KeyboardEvent::Down { key: KeyboardKey::A, shift } => Some(TextEvent::Append(if shift { 'A' } else { 'a' })),
            KeyboardEvent::Down { key: KeyboardKey::B, shift } => Some(TextEvent::Append(if shift { 'B' } else { 'b' })),
            KeyboardEvent::Down { key: KeyboardKey::C, shift } => Some(TextEvent::Append(if shift { 'C' } else { 'c' })),
            KeyboardEvent::Down { key: KeyboardKey::D, shift } => Some(TextEvent::Append(if shift { 'D' } else { 'd' })),
            KeyboardEvent::Down { key: KeyboardKey::E, shift } => Some(TextEvent::Append(if shift { 'E' } else { 'e' })),
            KeyboardEvent::Down { key: KeyboardKey::F, shift } => Some(TextEvent::Append(if shift { 'F' } else { 'f' })),
            KeyboardEvent::Down { key: KeyboardKey::G, shift } => Some(TextEvent::Append(if shift { 'G' } else { 'g' })),
            KeyboardEvent::Down { key: KeyboardKey::H, shift } => Some(TextEvent::Append(if shift { 'H' } else { 'h' })),
            KeyboardEvent::Down { key: KeyboardKey::I, shift } => Some(TextEvent::Append(if shift { 'I' } else { 'i' })),
            KeyboardEvent::Down { key: KeyboardKey::J, shift } => Some(TextEvent::Append(if shift { 'J' } else { 'j' })),
            KeyboardEvent::Down { key: KeyboardKey::K, shift } => Some(TextEvent::Append(if shift { 'K' } else { 'k' })),
            KeyboardEvent::Down { key: KeyboardKey::L, shift } => Some(TextEvent::Append(if shift { 'L' } else { 'l' })),
            KeyboardEvent::Down { key: KeyboardKey::M, shift } => Some(TextEvent::Append(if shift { 'M' } else { 'm' })),
            KeyboardEvent::Down { key: KeyboardKey::N, shift } => Some(TextEvent::Append(if shift { 'N' } else { 'n' })),
            KeyboardEvent::Down { key: KeyboardKey::O, shift } => Some(TextEvent::Append(if shift { 'O' } else { 'o' })),
            KeyboardEvent::Down { key: KeyboardKey::P, shift } => Some(TextEvent::Append(if shift { 'P' } else { 'p' })),
            KeyboardEvent::Down { key: KeyboardKey::Q, shift } => Some(TextEvent::Append(if shift { 'Q' } else { 'q' })),
            KeyboardEvent::Down { key: KeyboardKey::R, shift } => Some(TextEvent::Append(if shift { 'R' } else { 'r' })),
            KeyboardEvent::Down { key: KeyboardKey::S, shift } => Some(TextEvent::Append(if shift { 'S' } else { 's' })),
            KeyboardEvent::Down { key: KeyboardKey::T, shift } => Some(TextEvent::Append(if shift { 'T' } else { 't' })),
            KeyboardEvent::Down { key: KeyboardKey::U, shift } => Some(TextEvent::Append(if shift { 'U' } else { 'u' })),
            KeyboardEvent::Down { key: KeyboardKey::V, shift } => Some(TextEvent::Append(if shift { 'V' } else { 'v' })),
            KeyboardEvent::Down { key: KeyboardKey::W, shift } => Some(TextEvent::Append(if shift { 'W' } else { 'w' })),
            KeyboardEvent::Down { key: KeyboardKey::X, shift } => Some(TextEvent::Append(if shift { 'X' } else { 'x' })),
            KeyboardEvent::Down { key: KeyboardKey::Y, shift } => Some(TextEvent::Append(if shift { 'Y' } else { 'y' })),
            KeyboardEvent::Down { key: KeyboardKey::Z, shift } => Some(TextEvent::Append(if shift { 'Z' } else { 'z' })),
            KeyboardEvent::Up { .. } => None,
        }
    }
}

/// Which of the two button rows a button is in: the direction pad (row 0) or
/// the A, B, Select and Start buttons (row 1).
pub open spec fn key_in_row1(key: KeypadKey) -> bool {
    match key {
        KeypadKey::Right | KeypadKey::Left | KeypadKey::Up | KeypadKey::Down => false,
        _ => true,
    }
}

/// The button's bit in its row.
pub open spec fn key_bit(key: KeypadKey) -> u8 {
    match key {
        KeypadKey::Right | KeypadKey::A => 0,
        KeypadKey::Left | KeypadKey::B => 1,
        KeypadKey::Up | KeypadKey::Select => 2,
        KeypadKey::Down | KeypadKey::Start => 3,
    }
}

/// A row after a button in it goes down (its bit cleared) or up (set).
pub open spec fn row_after(row: u8, key: KeypadKey, down: bool) -> u8 {
    if down {
        row & !(1u8 << key_bit(key))
    } else {
        row | (1u8 << key_bit(key))
    }
}

/// The two rows after a keypad event.
pub open spec fn rows_after_event(rows: (u8, u8), event: KeypadEvent) -> (u8, u8) {
    match event {
        KeypadEvent::Down(k) => if key_in_row1(k) {
            (rows.0, row_after(rows.1, k, true))
        } else {
            (row_after(rows.0, k, true), rows.1)
        },
        KeypadEvent::Up(k) => if key_in_row1(k) {
            (rows.0, row_after(rows.1, k, false))
        } else {
            (row_after(rows.0, k, false), rows.1)
        },
    }
}

/// The two rows after the keyboard events in order; those that stand for no
/// button change nothing.
pub open spec fn rows_after_events(rows: (u8, u8), events: Seq<KeyboardEvent>) -> (u8, u8)
    decreases events.len(),
{
    if events.len() == 0 {
        rows
    } else {
        let before = rows_after_events(rows, events.drop_last());
        match keypad_event_of(events.last()) {
            Some(e) => rows_after_event(before, e),
            None => before,
        }
    }
}

/// The joypad register after a refresh: the upper nibble kept, the lower one
/// the buttons of the selected rows (a row is selected by a clear bit 4 for
/// row 0 and bit 5 for row 1), a clear bit meaning pressed.
pub open spec fn refreshed_data(data: u8, row0: u8, row1: u8) -> u8 {
    let v0: u8 = if data & 0x10u8 == 0 { 0x0Fu8 & row0 } else { 0x0Fu8 };
    let v1: u8 = if data & 0x20u8 == 0 { v0 & row1 } else { v0 };
    (data & 0xF0u8) | v1
}

/// The Game Boy joypad: the two button rows and the joypad register.
pub struct Keypad {
    row0: u8,
    row1: u8,
    data: u8,
}

impl Keypad {
    pub closed spec fn rows(&self) -> (u8, u8) {
        (self.row0, self.row1)
    }

    /// The joypad register as last refreshed.
    pub closed spec fn register(&self) -> u8 {
        self.data
    }

    /// No button pressed, no row selected.
    pub fn new() -> (res: Keypad)
        ensures
            res.rows() == (0x0Fu8, 0x0Fu8),
            res.register() == 0xFF,
    {
        Keypad { row0: 0x0F, row1: 0x0F, data: 0xFF }
    }

    /// One event while waiting for a button press: a press is recorded and
    /// returned, a release is recorded, anything else is ignored.
    pub fn wait(&mut self, event: KeyboardEvent) -> (res: Option<KeypadKey>)
        ensures
            final(self).register() == old(self).register(),
            final(self).rows() == match keypad_event_of(event) {
                Some(e) => rows_after_event(old(self).rows(), e),
                None => old(self).rows(),
            },
            res == match keypad_event_of(event) {
                Some(KeypadEvent::Down(k)) => Some(k),
                _ => None::<KeypadKey>,
            },
    {
        match event.into_keypad_event() {
            Some(KeypadEvent::Down(key)) => {
                self.keydown(key);
                Some(key)
            },
            Some(KeypadEvent::Up(key)) => {
                self.keyup(key);
                None
            },
            None => None,
        }
    }

    /// What a keyboard event means while typing text, if anything.
    pub fn text(&self, event: KeyboardEvent) -> (res: Option<TextEvent>)
        ensures
            res == text_event_of(event),
    {
        event.into_text_event()
    }

    /// Reads the joypad register after taking in the pending keyboard events.
    pub fn rb(&mut self, pending: &[KeyboardEvent]) -> (res: u8)
        ensures
            final(self).rows() == rows_after_events(old(self).rows(), pending@),
            final(self).register() == refreshed_data(
                old(self).register(),
                final(self).rows().0,
                final(self).rows().1,
            ),
            res == final(self).register(),
    {
        self.update(pending);
        self.data
    }

    /// Writes the joypad register: only the two row select bits (4 and 5) change.
    pub fn wb(&mut self, value: u8)
        ensures
            final(self).rows() == old(self).rows(),
            final(self).register() == (old(self).register() & 0xCF) | (value & 0x30),
    {
        self.data = (self.data & 0xCF) | (value & 0x30);
    }

    fn update(&mut self, pending: &[KeyboardEvent])
        ensures
            final(self).rows() == rows_after_events(old(self).rows(), pending@),
            final(self).register() == refreshed_data(
                old(self).register(),
                final(self).rows().0,
                final(self).rows().1,
            ),
    {
        let mut i: usize = 0;
        while i < pending.len()
            invariant
                i <= pending@.len(),
                self.rows() == rows_after_events(old(self).rows(), pending@.take(i as int)),
                self.data == old(self).data,
            decreases pending@.len() - i,
        {
            proof {
                assert(pending@.take(i + 1).drop_last() =~= pending@.take(i as int));
            }
            match pending[i].into_keypad_event() {
                Some(KeypadEvent::Down(key)) => self.keydown(key),
                Some(KeypadEvent::Up(key)) => self.keyup(key),
                None => {},
            }
            i = i + 1;
        }
        assert(pending@.take(pending@.len() as int) =~= pending@);
        let mut new_values: u8 = 0xF;
        if self.data & 0x10 == 0x00 {
            new_values &= self.row0;
        }
        if self.data & 0x20 == 0x00 {
            new_values &= self.row1;
        }
        self.data = (self.data & 0xF0) | new_values;
    }

    fn keydown(&mut self, key: KeypadKey)
        ensures
            final(self).rows() == rows_after_event(old(self).rows(), KeypadEvent::Down(key)),
            final(self).register() == old(self).register(),
    {
        match key {
            KeypadKey::Right => self.row0 &= !(1u8 << 0u8),
            KeypadKey::Left => self.row0 &= !(1u8 << 1u8),
            KeypadKey::Up => self.row0 &= !(1u8 << 2u8),
            KeypadKey::Down => self.row0 &= !(1u8 << 3u8),
            KeypadKey::A => self.row1 &= !(1u8 << 0u8),
            KeypadKey::B => self.row1 &= !(1u8 << 1u8),
            KeypadKey::Select => self.row1 &= !(1u8 << 2u8),
            KeypadKey::Start => self.row1 &= !(1u8 << 3u8),
        }
    }

    fn keyup(&mut self, key: KeypadKey)
        ensures
            final(self).rows() == rows_after_event(old(self).rows(), KeypadEvent::Up(key)),
            final(self).register() == old(self).register(),
    {
        match key {
            KeypadKey::Right => self.row0 |= 1u8 << 0u8,
            KeypadKey::Left => self.row0 |= 1u8 << 1u8,
            KeypadKey::Up => self.row0 |= 1u8 << 2u8,
            KeypadKey::Down => self.row0 |= 1u8 << 3u8,
            KeypadKey::A => self.row1 |= 1u8 << 0u8,
            KeypadKey::B => self.row1 |= 1u8 << 1u8,
            KeypadKey::Select => self.row1 |= 1u8 << 2u8,
            KeypadKey::Start => self.row1 |= 1u8 << 3u8,
        }
    }
}

/// A button that is down reads as a clear bit of the register while its row
/// is selected, and one that is up reads as a set bit while its row is the
/// only one selected.
pub proof fn lemma_pressed_button_reads_clear(data: u8, rows: (u8, u8), key: KeypadKey)
    ensures
        ({
            let r = rows_after_event(rows, KeypadEvent::Down(key));
            let selected = if key_in_row1(key) { data & 0x20u8 == 0 } else { data & 0x10u8 == 0 };
            selected ==> refreshed_data(data, r.0, r.1) & (1u8 << key_bit(key)) == 0
        }),
        ({
            let r = rows_after_event(rows, KeypadEvent::Up(key));
            let only = if key_in_row1(key) {
                data & 0x20u8 == 0 && data & 0x10u8 != 0
            } else {
                data & 0x10u8 == 0 && data & 0x20u8 != 0
            };
            only ==> refreshed_data(data, r.0, r.1) & (1u8 << key_bit(key)) != 0
        }),
{
    let k = key_bit(key);
    let r0 = rows.0;
    let r1 = rows.1;
    assert(k < 4);
    if key_in_row1(key) {
        assert(data & 0x20u8 == 0 ==> refreshed_data(data, r0, r1 & !(1u8 << k)) & (1u8 << k) == 0)
            by (bit_vector)
            requires
                k < 4,
        ;
        assert(data & 0x20u8 == 0 && data & 0x10u8 != 0 ==> refreshed_data(data, r0, r1 | (1u8 << k))
            & (1u8 << k) != 0) by (bit_vector)
            requires
                k < 4,
        ;
    } else {
        assert(data & 0x10u8 == 0 ==> refreshed_data(data, r0 & !(1u8 << k), r1) & (1u8 << k) == 0)
            by (bit_vector)
            requires
                k < 4,
        ;
        assert(data & 0x10u8 == 0 && data & 0x20u8 != 0 ==> refreshed_data(data, r0 | (1u8 << k), r1)
            & (1u8 << k) != 0) by (bit_vector)
            requires
                k < 4,
        ;
    }
}


/// Which keyboard keys press which Game Boy button: the Right arrow and D
/// press Right, the Left arrow and A press Left, the Up arrow and W press
/// Up, the Down arrow and S press Down, Z and N press A, X and M press B,
/// Return presses Start and Space presses Select; no other key presses
/// anything. So each letter of WASD does what the arrow in its place does.
pub proof fn lemma_keyboard_buttons(key: KeyboardKey)
    ensures
        (keypad_key_of(key) == Some(KeypadKey::Right)) <==> (key == KeyboardKey::Right || key == KeyboardKey::D),
        (keypad_key_of(key) == Some(KeypadKey::Left)) <==> (key == KeyboardKey::Left || key == KeyboardKey::A),
        (keypad_key_of(key) == Some(KeypadKey::Up)) <==> (key == KeyboardKey::Up || key == KeyboardKey::W),
        (keypad_key_of(key) == Some(KeypadKey::Down)) <==> (key == KeyboardKey::Down || key == KeyboardKey::S),
        (keypad_key_of(key) == Some(KeypadKey::A)) <==> (key == KeyboardKey::Z || key == KeyboardKey::N),
        (keypad_key_of(key) == Some(KeypadKey::B)) <==> (key == KeyboardKey::X || key == KeyboardKey::M),
        (keypad_key_of(key) == Some(KeypadKey::Start)) <==> key == KeyboardKey::Return,
        (keypad_key_of(key) == Some(KeypadKey::Select)) <==> key == KeyboardKey::Space,
        keypad_key_of(KeyboardKey::D) == keypad_key_of(KeyboardKey::Right),
        keypad_key_of(KeyboardKey::A) == keypad_key_of(KeyboardKey::Left),
        keypad_key_of(KeyboardKey::W) == keypad_key_of(KeyboardKey::Up),
        keypad_key_of(KeyboardKey::S) == keypad_key_of(KeyboardKey::Down),
{
}


/// A keyboard key held down reads, through the joypad register, as the
/// clear bit of its button: with the direction row selected (bit 4 clear),
/// the Right arrow or D clears bit 0, the Left arrow or A bit 1, the Up
/// arrow or W bit 2 and the Down arrow or S bit 3; with the button row
/// selected (bit 5 clear), Z or N clears bit 0 (A), X or M bit 1 (B), Space
/// bit 2 (Select) and Return bit 3 (Start).
pub proof fn lemma_key_press_reads_as_its_bit(data: u8, rows: (u8, u8), key: KeyboardKey, shift: bool)
    ensures
        ({
            let r = rows_after_events(rows, seq![KeyboardEvent::Down { key, shift }]);
            let v = refreshed_data(data, r.0, r.1);
            &&& data & 0x10u8 == 0 ==> {
                &&& (key == KeyboardKey::Right || key == KeyboardKey::D) ==> v & 1u8 == 0
                &&& (key == KeyboardKey::Left || key == KeyboardKey::A) ==> v & 2u8 == 0
                &&& (key == KeyboardKey::Up || key == KeyboardKey::W) ==> v & 4u8 == 0
                &&& (key == KeyboardKey::Down || key == KeyboardKey::S) ==> v & 8u8 == 0
            }
            &&& data & 0x20u8 == 0 ==> {
                &&& (key == KeyboardKey::Z || key == KeyboardKey::N) ==> v & 1u8 == 0
                &&& (key == KeyboardKey::X || key == KeyboardKey::M) ==> v & 2u8 == 0
                &&& key == KeyboardKey::Space ==> v & 4u8 == 0
                &&& key == KeyboardKey::Return ==> v & 8u8 == 0
            }
        }),
{
    let events = seq![KeyboardEvent::Down { key, shift }];
    assert(events.drop_last() =~= Seq::<KeyboardEvent>::empty());
    assert(events.last() == KeyboardEvent::Down { key, shift });
    let r = rows_after_events(rows, events);
    let (r0, r1) = rows;
    assert(forall|d: u8, a: u8, b: u8|
        #![trigger refreshed_data(d, a & !(1u8 << 0u8), b)]
        d & 0x10u8 == 0 ==> refreshed_data(d, a & !(1u8 << 0u8), b) & 1u8 == 0) by (bit_vector);
    assert(forall|d: u8, a: u8, b: u8|
        #![trigger refreshed_data(d, a & !(1u8 << 1u8), b)]
        d & 0x10u8 == 0 ==> refreshed_data(d, a & !(1u8 << 1u8), b) & 2u8 == 0) by (bit_vector);
    assert(forall|d: u8, a: u8, b: u8|
        #![trigger refreshed_data(d, a & !(1u8 << 2u8), b)]
        d & 0x10u8 == 0 ==> refreshed_data(d, a & !(1u8 << 2u8), b) & 4u8 == 0) by (bit_vector);
    assert(forall|d: u8, a: u8, b: u8|
        #![trigger refreshed_data(d, a & !(1u8 << 3u8), b)]
        d & 0x10u8 == 0 ==> refreshed_data(d, a & !(1u8 << 3u8), b) & 8u8 == 0) by (bit_vector);
    assert(forall|d: u8, a: u8, b: u8|
        #![trigger refreshed_data(d, a, b & !(1u8 << 0u8))]
        d & 0x20u8 == 0 ==> refreshed_data(d, a, b & !(1u8 << 0u8)) & 1u8 == 0) by (bit_vector);
    assert(forall|d: u8, a: u8, b: u8|
        #![trigger refreshed_data(d, a, b & !(1u8 << 1u8))]
        d & 0x20u8 == 0 ==> refreshed_data(d, a, b & !(1u8 << 1u8)) & 2u8 == 0) by (bit_vector);
    assert(forall|d: u8, a: u8, b: u8|
        #![trigger refreshed_data(d, a, b & !(1u8 << 2u8))]
        d & 0x20u8 == 0 ==> refreshed_data(d, a, b & !(1u8 << 2u8)) & 4u8 == 0) by (bit_vector);
    assert(forall|d: u8, a: u8, b: u8|
        #![trigger refreshed_data(d, a, b & !(1u8 << 3u8))]
        d & 0x20u8 == 0 ==> refreshed_data(d, a, b & !(1u8 << 3u8)) & 8u8 == 0) by (bit_vector);
}

} // verus!
