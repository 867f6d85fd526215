//! Keyboard matrix: the physical key table, the raw snapshot and the edge
//! detector that turns two consecutive snapshots into one key transition.
use vstd::prelude::*;

verus! {

/// Physical key identity: one of the 56 keys of the matrix.
#[derive(Debug, Clone, Copy, PartialEq, Eq, Structural)]
pub enum Scancode {
    Opt,
    Z,
    C,
    B,
    M,
    Period,
    Space,
    Shift,
    S,
    F,
    H,
    K,
    Semicolon,
    Enter,
    Q,
    E,
    T,
    U,
    O,
    LeftSquareBracket,
    BackSlash,
    _1,
    _3,
    _5,
    _7,
    _9,
    Underscore,
    Backspace,
    Ctrl,
    Alt,
    X,
    V,
    N,
    Comma,
    Slash,
    Fn,
    A,
    D,
    G,
    J,
    L,
    Quote,
    Tab,
    W,
    R,
    Y,
    I,
    P,
    RightSquareBracket,
    Tilde,
    _2,
    _4,
    _6,
    _8,
    _0,
    Equal,
}

/// The same key identity under its shorter name.
pub type Key = Scancode;

/// Direction of a key transition.
#[derive(Debug, Clone, Copy, PartialEq, Eq, Structural)]
pub enum KeyEvent {
    Pressed,
    Released,
}

/// Number of row-select values (registers of a snapshot).
pub const ROWS: usize = 8;

/// Number of column lines sampled for each row.
pub const COLUMNS: usize = 7;

/// A matrix position: register `reg` of the snapshot, bit `col` of it.
pub open spec fn in_matrix(reg: int, col: int) -> bool {
    0 <= reg < ROWS && 0 <= col < COLUMNS
}

/// The fixed table from matrix position to key identity.
pub open spec fn key_at(reg: usize, col: usize) -> Scancode {
    match (reg, col) {
        (0, 0) => Scancode::Opt,
        (0, 1) => Scancode::Z,
        (0, 2) => Scancode::C,
        (0, 3) => Scancode::B,
        (0, 4) => Scancode::M,
        (0, 5) => Scancode::Period,
        (0, 6) => Scancode::Space,
        (1, 0) => Scancode::Shift,
        (1, 1) => Scancode::S,
        (1, 2) => Scancode::F,
        (1, 3) => Scancode::H,
        (1, 4) => Scancode::K,
        (1, 5) => Scancode::Semicolon,
        (1, 6) => Scancode::Enter,
        (2, 0) => Scancode::Q,
        (2, 1) => Scancode::E,
        (2, 2) => Scancode::T,
        (2, 3) => Scancode::U,
        (2, 4) => Scancode::O,
        (2, 5) => Scancode::LeftSquareBracket,
        (2, 6) => Scancode::BackSlash,
        (3, 0) => Scancode::_1,
        (3, 1) => Scancode::_3,
        (3, 2) => Scancode::_5,
        (3, 3) => Scancode::_7,
        (3, 4) => Scancode::_9,
        (3, 5) => Scancode::Underscore,
        (3, 6) => Scancode::Backspace,
        (4, 0) => Scancode::Ctrl,
        (4, 1) => Scancode::Alt,
        (4, 2) => Scancode::X,
        (4, 3) => Scancode::V,
        (4, 4) => Scancode::N,
        (4, 5) => Scancode::Comma,
        (4, 6) => Scancode::Slash,
        (5, 0) => Scancode::Fn,
        (5, 1) => Scancode::A,
        (5, 2) => Scancode::D,
        (5, 3) => Scancode::G,
        (5, 4) => Scancode::J,
        (5, 5) => Scancode::L,
        (5, 6) => Scancode::Quote,
        (6, 0) => Scancode::Tab,
        (6, 1) => Scancode::W,
        (6, 2) => Scancode::R,
        (6, 3) => Scancode::Y,
        (6, 4) => Scancode::I,
        (6, 5) => Scancode::P,
        (6, 6) => Scancode::RightSquareBracket,
        (7, 0) => Scancode::Tilde,
        (7, 1) => Scancode::_2,
        (7, 2) => Scancode::_4,
        (7, 3) => Scancode::_6,
        (7, 4) => Scancode::_8,
        (7, 5) => Scancode::_0,
        _ => Scancode::Equal,
    }
}

/// Looks up the key identity at a matrix position.
pub fn scancode_at(reg: usize, col: usize) -> (r: Scancode)
    requires
        in_matrix(reg as int, col as int),
    ensures
        r == key_at(reg, col),
{
    match (reg, col) {
        (0, 0) => Scancode::Opt,
        (0, 1) => Scancode::Z,
        (0, 2) => Scancode::C,
        (0, 3) => Scancode::B,
        (0, 4) => Scancode::M,
        (0, 5) => Scancode::Period,
        (0, 6) => Scancode::Space,
        (1, 0) => Scancode::Shift,
        (1, 1) => Scancode::S,
        (1, 2) => Scancode::F,
        (1, 3) => Scancode::H,
        (1, 4) => Scancode::K,
        (1, 5) => Scancode::Semicolon,
        (1, 6) => Scancode::Enter,
        (2, 0) => Scancode::Q,
        (2, 1) => Scancode::E,
        (2, 2) => Scancode::T,
        (2, 3) => Scancode::U,
        (2, 4) => Scancode::O,
        (2, 5) => Scancode::LeftSquareBracket,
        (2, 6) => Scancode::BackSlash,
        (3, 0) => Scancode::_1,
        (3, 1) => Scancode::_3,
        (3, 2) => Scancode::_5,
        (3, 3) => Scancode::_7,
        (3, 4) => Scancode::_9,
        (3, 5) => Scancode::Underscore,
        (3, 6) => Scancode::Backspace,
        (4, 0) => Scancode::Ctrl,
        (4, 1) => Scancode::Alt,
        (4, 2) => Scancode::X,
        (4, 3) => Scancode::V,
        (4, 4) => Scancode::N,
        (4, 5) => Scancode::Comma,
        (4, 6) => Scancode::Slash,
        (5, 0) => Scancode::Fn,
        (5, 1) => Scancode::A,
        (5, 2) => Scancode::D,
        (5, 3) => Scancode::G,
        (5, 4) => Scancode::J,
        (5, 5) => Scancode::L,
        (5, 6) => Scancode::Quote,
        (6, 0) => Scancode::Tab,
        (6, 1) => Scancode::W,
        (6, 2) => Scancode::R,
        (6, 3) => Scancode::Y,
        (6, 4) => Scancode::I,
        (6, 5) => Scancode::P,
        (6, 6) => Scancode::RightSquareBracket,
        (7, 0) => Scancode::Tilde,
        (7, 1) => Scancode::_2,
        (7, 2) => Scancode::_4,
        (7, 3) => Scancode::_6,
        (7, 4) => Scancode::_8,
        (7, 5) => Scancode::_0,
        _ => Scancode::Equal,
    }
}

/// Bit `col` of a register is set: the key there is down.
pub open spec fn bit_set(b: u8, col: int) -> bool {
    (b >> (col as u8)) & 1u8 == 1u8
}

/// The key at `(reg, col)` is down in snapshot `s`.
pub open spec fn key_down(s: Seq<u8>, reg: int, col: int) -> bool {
    bit_set(s[reg], col)
}

/// The key at `(reg, col)` differs between two snapshots.
pub open spec fn changed_at(prev: Seq<u8>, next: Seq<u8>, reg: int, col: int) -> bool {
    key_down(prev, reg, col) != key_down(next, reg, col)
}

/// Scan order: register 0 to 7, and within a register bit 0 to 6.
pub open spec fn scanned_before(r1: int, c1: int, r2: int, c2: int) -> bool {
    r1 < r2 || (r1 == r2 && c1 < c2)
}

/// `(reg, col)` is the first position, in scan order, whose key changed.
pub open spec fn is_first_change(prev: Seq<u8>, next: Seq<u8>, reg: int, col: int) -> bool {
    &&& in_matrix(reg, col)
    &&& changed_at(prev, next, reg, col)
    &&& forall|r: int, c: int|
        in_matrix(r, c) && scanned_before(r, c, reg, col) ==> !#[trigger] changed_at(
            prev,
            next,
            r,
            c,
        )
}

/// No key of the matrix differs between the two snapshots.
pub open spec fn unchanged(prev: Seq<u8>, next: Seq<u8>) -> bool {
    forall|r: int, c: int| in_matrix(r, c) ==> !#[trigger] changed_at(prev, next, r, c)
}

/// Direction of the transition at `(reg, col)`, read from the new snapshot.
pub open spec fn direction(next: Seq<u8>, reg: int, col: int) -> KeyEvent {
    if key_down(next, reg, col) {
        KeyEvent::Pressed
    } else {
        KeyEvent::Released
    }
}

/// The one transition reported between two snapshots: the first change in
/// scan order, or none when no key changed.
pub open spec fn edge_transition(prev: Seq<u8>, next: Seq<u8>) -> Option<(KeyEvent, Scancode)> {
    if exists|r: int, c: int| is_first_change(prev, next, r, c) {
        let (r, c) = choose|r: int, c: int| is_first_change(prev, next, r, c);
        Some((direction(next, r, c), key_at(r as usize, c as usize)))
    } else {
        None
    }
}

proof fn lemma_xor_bit(a: u8, b: u8, j: u8)
    by (bit_vector)
    requires
        j < 8,
    ensures
        ((a ^ b) >> j) & 1u8 == 1u8 <==> (((a >> j) & 1u8 == 1u8) != ((b >> j) & 1u8 == 1u8)),
{
}

/// The first change in scan order is unique.
proof fn lemma_first_change_unique(prev: Seq<u8>, next: Seq<u8>, r1: int, c1: int, r2: int, c2: int)
    requires
        is_first_change(prev, next, r1, c1),
        is_first_change(prev, next, r2, c2),
    ensures
        r1 == r2 && c1 == c2,
{
    if scanned_before(r1, c1, r2, c2) {
        assert(!changed_at(prev, next, r1, c1));
    } else if scanned_before(r2, c2, r1, c1) {
        assert(!changed_at(prev, next, r2, c2));
    }
}

/// A change that is first in scan order is the one reported, with the
/// direction of the new bit.
pub proof fn lemma_first_change_reported(prev: Seq<u8>, next: Seq<u8>, reg: int, col: int)
    requires
        is_first_change(prev, next, reg, col),
    ensures
        edge_transition(prev, next) == Some((direction(next, reg, col), key_at(reg as usize, col as usize))),
{
    let (r, c) = choose|r: int, c: int| is_first_change(prev, next, r, c);
    lemma_first_change_unique(prev, next, r, c, reg, col);
}

/// Without any change no transition is reported.
pub proof fn lemma_unchanged_quiet(prev: Seq<u8>, next: Seq<u8>)
    requires
        unchanged(prev, next),
    ensures
        edge_transition(prev, next) is None,
{
    if exists|r: int, c: int| is_first_change(prev, next, r, c) {
        let (r, c) = choose|r: int, c: int| is_first_change(prev, next, r, c);
        assert(changed_at(prev, next, r, c));
    }
}

/// When the two snapshots differ at exactly one key position, that key is
/// reported: `Pressed` when its bit is now 1, `Released` when it is now 0.
pub proof fn lemma_single_change(prev: Seq<u8>, next: Seq<u8>, reg: int, col: int)
    requires
        in_matrix(reg, col),
        changed_at(prev, next, reg, col),
        forall|r: int, c: int|
            in_matrix(r, c) && (r != reg || c != col) ==> !#[trigger] changed_at(prev, next, r, c),
    ensures
        edge_transition(prev, next) == Some(
            (
                if bit_set(next[reg], col) {
                    KeyEvent::Pressed
                } else {
                    KeyEvent::Released
                },
                key_at(reg as usize, col as usize),
            ),
        ),
{
    assert(is_first_change(prev, next, reg, col));
    lemma_first_change_reported(prev, next, reg, col);
}

/// A poll stores the snapshot it read, so a second poll with no physical
/// change in between compares a snapshot with itself and reports nothing.
pub proof fn lemma_repeat_poll_quiet(keys: Seq<u8>)
    ensures
        edge_transition(keys, keys) is None,
{
    lemma_unchanged_quiet(keys, keys);
}

/// When two keys change in the same poll, only the one earlier in scan order
/// is reported; the other is absorbed into the stored snapshot, so a further
/// poll without physical change does not report it either.
pub proof fn lemma_two_changes_first_wins(
    prev: Seq<u8>,
    next: Seq<u8>,
    r1: int,
    c1: int,
    r2: int,
    c2: int,
)
    requires
        in_matrix(r1, c1),
        in_matrix(r2, c2),
        scanned_before(r1, c1, r2, c2),
        changed_at(prev, next, r1, c1),
        changed_at(prev, next, r2, c2),
        forall|r: int, c: int|
            in_matrix(r, c) && (r != r1 || c != c1) && (r != r2 || c != c2) ==> !#[trigger] changed_at(
                prev,
                next,
                r,
                c,
            ),
    ensures
        edge_transition(prev, next) == Some(
            (direction(next, r1, c1), key_at(r1 as usize, c1 as usize)),
        ),
        edge_transition(next, next) is None,
{
    assert(is_first_change(prev, next, r1, c1));
    lemma_first_change_reported(prev, next, r1, c1);
    lemma_unchanged_quiet(next, next);
}

/// Keys down in row `reg` among its first `upto` columns, in column order.
pub open spec fn pressed_in_row(s: Seq<u8>, reg: int, upto: int) -> Seq<Scancode>
    decreases upto,
{
    if upto <= 0 {
        Seq::empty()
    } else {
        let before = pressed_in_row(s, reg, upto - 1);
        if key_down(s, reg, upto - 1) {
            before.push(key_at(reg as usize, (upto - 1) as usize))
        } else {
            before
        }
    }
}

/// Keys down in the first `rows` rows, in scan order.
pub open spec fn pressed_in_rows(s: Seq<u8>, rows: int) -> Seq<Scancode>
    decreases rows,
{
    if rows <= 0 {
        Seq::empty()
    } else {
        pressed_in_rows(s, rows - 1) + pressed_in_row(s, rows - 1, COLUMNS as int)
    }
}

/// All keys down in a snapshot, in scan order.
pub open spec fn pressed_keys(s: Seq<u8>) -> Seq<Scancode> {
    pressed_in_rows(s, ROWS as int)
}

proof fn lemma_column_bits(b0: u8, b1: u8, b2: u8, b3: u8, b4: u8, b5: u8, b6: u8)
    by (bit_vector)
    requires
        b0 <= 1 && b1 <= 1 && b2 <= 1 && b3 <= 1 && b4 <= 1 && b5 <= 1 && b6 <= 1,
    ensures
        ({
            let m = b0 | (b1 << 1u8) | (b2 << 2u8) | (b3 << 3u8) | (b4 << 4u8) | (b5 << 5u8) | (b6
                << 6u8);
            &&& m < 128
            &&& ((m >> 0u8) & 1u8 == 1u8) == (b0 == 1)
            &&& ((m >> 1u8) & 1u8 == 1u8) == (b1 == 1)
            &&& ((m >> 2u8) & 1u8 == 1u8) == (b2 == 1)
            &&& ((m >> 3u8) & 1u8 == 1u8) == (b3 == 1)
            &&& ((m >> 4u8) & 1u8 == 1u8) == (b4 == 1)
            &&& ((m >> 5u8) & 1u8 == 1u8) == (b5 == 1)
            &&& ((m >> 6u8) & 1u8 == 1u8) == (b6 == 1)
        }),
{
}

fn bit_of(b: bool) -> (r: u8)
    ensures
        r <= 1,
        (r == 1) == b,
{
    if b {
        1
    } else {
        0
    }
}

/// Edge detector over the keyboard matrix: it keeps the snapshot of the
/// previous poll.
pub struct CardputerKeyboard {
    state: [u8; 8],
}

impl View for CardputerKeyboard {
    type V = Seq<u8>;

    closed spec fn view(&self) -> Seq<u8> {
        self.state@
    }
}

impl CardputerKeyboard {
    /// A detector whose previous snapshot has no key down.
    pub fn new() -> (r: Self)
        ensures
            r@ == seq![0u8; 8],
    {
        let r = CardputerKeyboard { state: [0u8; 8] };
        assert(r@ =~= seq![0u8; 8]);
        r
    }

    /// The snapshot stored by the last poll.
    pub fn state(&self) -> (r: [u8; 8])
        ensures
            r@ == self@,
    {
        self.state
    }

    /// Row-select levels for row `index`: line `i` is driven high exactly when
    /// bit `i` of the 3-bit code is set.
    pub fn mux_levels(index: u8) -> (r: [bool; 3])
        requires
            index < ROWS,
        ensures
            forall|i: int| 0 <= i < 3 ==> #[trigger] r@[i] == bit_set(index, i),
    {
        let r = [(index >> 0u8) & 1u8 == 1u8, (index >> 1u8) & 1u8 == 1u8, (index >> 2u8) & 1u8 == 1u8];
        assert forall|i: int| 0 <= i < 3 implies #[trigger] r@[i] == bit_set(index, i) by {
            if i == 0 {
            } else if i == 1 {
            } else {
            }
        }
        r
    }

    /// Column mask of one row from the sampled lines, which are active low:
    /// bit `i` is set exactly when column line `i` reads low (key down).
    pub fn read_columns(low: [bool; 7]) -> (r: u8)
        ensures
            r < 128,
            forall|i: int| 0 <= i < COLUMNS ==> #[trigger] bit_set(r, i) == low@[i],
    {
        let b0 = bit_of(low[0]);
        let b1 = bit_of(low[1]);
        let b2 = bit_of(low[2]);
        let b3 = bit_of(low[3]);
        let b4 = bit_of(low[4]);
        let b5 = bit_of(low[5]);
        let b6 = bit_of(low[6]);
        let r = b0 | (b1 << 1u8) | (b2 << 2u8) | (b3 << 3u8) | (b4 << 4u8) | (b5 << 5u8) | (b6 << 6u8);
        proof {
            lemma_column_bits(b0, b1, b2, b3, b4, b5, b6);
        }
        assert forall|i: int| 0 <= i < COLUMNS implies #[trigger] bit_set(r, i) == low@[i] by {
            if i == 0 {
            } else if i == 1 {
            } else if i == 2 {
            } else if i == 3 {
            } else if i == 4 {
            } else if i == 5 {
            } else {
            }
        }
        r
    }

    /// The keys down in a raw snapshot, in scan order.
    pub fn read_keys(raw: [u8; 8]) -> (r: Vec<Scancode>)
        ensures
            r@ == pressed_keys(raw@),
    {
        let mut result: Vec<Scancode> = Vec::new();
        let mut i: usize = 0;
        while i < ROWS
            invariant
                0 <= i <= ROWS,
                result@ == pressed_in_rows(raw@, i as int),
            decreases ROWS - i,
        {
            let byte = raw[i];
            let mut j: u8 = 0;
            while j < 7
                invariant
                    0 <= i < ROWS,
                    0 <= j <= 7,
                    byte == raw@[i as int],
                    result@ == pressed_in_rows(raw@, i as int) + pressed_in_row(raw@, i as int, j as int),
                decreases 7 - j,
            {
                if (byte >> j) & 1u8 == 1u8 {
                    result.push(scancode_at(i, j as usize));
                }
                assert(result@ =~= pressed_in_rows(raw@, i as int) + pressed_in_row(raw@, i as int, j + 1));
                j = j + 1;
            }
            i = i + 1;
        }
        result
    }

    /// Stores `keys` as the new snapshot and returns, per register, the bits
    /// that changed since the previous one.
    pub fn read_events_raw(&mut self, keys: [u8; 8]) -> (r: [u8; 8])
        ensures
            final(self)@ == keys@,
            forall|i: int| 0 <= i < 8 ==> #[trigger] r@[i] == keys@[i] ^ old(self)@[i],
    {
        let mut result = [0u8; 8];
        let mut i: usize = 0;
        while i < 8
            invariant
                0 <= i <= 8,
                forall|k: int| 0 <= k < i ==> #[trigger] result@[k] == keys@[k] ^ old(self).state@[k],
                forall|k: int| 0 <= k < i ==> #[trigger] self.state@[k] == keys@[k],
                forall|k: int| i <= k < 8 ==> #[trigger] self.state@[k] == old(self).state@[k],
            decreases 8 - i,
        {
            result[i] = keys[i] ^ self.state[i];
            self.state[i] = keys[i];
            i = i + 1;
        }
        assert(self@ =~= keys@);
        result
    }

    /// One poll: stores `keys` as the new snapshot and reports the first key,
    /// in scan order, whose state changed since the previous snapshot, with
    /// `Pressed` when it is now down and `Released` when it is now up. Any
    /// further change in the same poll is absorbed into the stored snapshot.
    pub fn read_events(&mut self, keys: [u8; 8]) -> (r: Option<(KeyEvent, Scancode)>)
        ensures
            final(self)@ == keys@,
            r == edge_transition(old(self)@, keys@),
    {
        let ghost prev = self@;
        let diff = self.read_events_raw(keys);
        let mut i: usize = 0;
        while i < 8
            invariant
                0 <= i <= 8,
                self@ == keys@,
                prev.len() == 8,
                prev == old(self)@,
                forall|k: int| 0 <= k < 8 ==> #[trigger] diff@[k] == keys@[k] ^ prev[k],
                forall|r: int, c: int|
                    in_matrix(r, c) && r < i ==> !#[trigger] changed_at(prev, keys@, r, c),
            decreases 8 - i,
        {
            let byte = diff[i];
            let mut j: u8 = 0;
            while j < 7
                invariant
                    0 <= i < 8,
                    0 <= j <= 7,
                    self@ == keys@,
                    prev.len() == 8,
                    prev == old(self)@,
                prev == old(self)@,
                    byte == keys@[i as int] ^ prev[i as int],
                    forall|r: int, c: int|
                        in_matrix(r, c) && r < i ==> !#[trigger] changed_at(prev, keys@, r, c),
                    forall|c: int| 0 <= c < j ==> !#[trigger] changed_at(prev, keys@, i as int, c),
                decreases 7 - j,
            {
                proof {
                    lemma_xor_bit(keys@[i as int], prev[i as int], j);
                }
                if (byte >> j) & 1u8 == 1u8 {
                    let event = if (keys[i] >> j) & 1u8 == 1u8 {
                        KeyEvent::Pressed
                    } else {
                        KeyEvent::Released
                    };
                    proof {
                        assert(in_matrix(i as int, j as int));
                        assert(changed_at(prev, keys@, i as int, j as int));
                        assert(is_first_change(prev, keys@, i as int, j as int));
                        lemma_first_change_reported(prev, keys@, i as int, j as int);
                    }
                    let key = scancode_at(i, j as usize);
                    return Some((event, key));
                }
                j = j + 1;
            }
            i = i + 1;
        }
        proof {
            lemma_unchanged_quiet(prev, keys@);
        }
        None
    }
}

} // verus!
