use vstd::prelude::*;

verus! {

/// A key as the device understands it.
#[derive(Clone, Copy, Debug, PartialEq, Eq, Structural)]
pub enum LogicalKey {
    Up,
    Down,
    Left,
    Right,
    Home,
    Ctrl,
    Alt,
    Shift,
    Char(u8),
}

/// A physical key as reported by the host toolkit.
///
/// Keys with no meaning to the device (function keys, media keys, ...) are
/// all reported as `Other`.
#[derive(Clone, Copy, Debug, PartialEq, Eq, Structural)]
pub enum PhysicalKey {
    ArrowUp,
    ArrowDown,
    ArrowLeft,
    ArrowRight,
    Home,
    Num0,
    Num1,
    Num2,
    Num3,
    Num4,
    Num5,
    Num6,
    Num7,
    Num8,
    Num9,
    A,
    B,
    C,
    D,
    E,
    F,
    G,
    H,
    I,
    J,
    K,
    L,
    M,
    N,
    O,
    P,
    Q,
    R,
    S,
    T,
    U,
    V,
    W,
    X,
    Y,
    Z,
    Backtick,
    Backslash,
    Pipe,
    Comma,
    Equals,
    Plus,
    OpenBracket,
    Minus,
    Period,
    CloseBracket,
    Semicolon,
    Colon,
    Slash,
    Questionmark,
    Space,
    Tab,
    Enter,
    Other,
}

/// The punctuation that reaches the device only through the host's decoded
/// text: quotes, braces and the symbols typed with Shift on the digit row.
pub open spec fn is_raw_char(c: u8) -> bool {
    c == '"' as u8
        || c == '\'' as u8
        || c == '{' as u8
        || c == '}' as u8
        || c == '_' as u8
        || c == ')' as u8
        || c == '(' as u8
        || c == '*' as u8
        || c == '&' as u8
        || c == '^' as u8
        || c == '%' as u8
        || c == '$' as u8
        || c == '#' as u8
        || c == '@' as u8
        || c == '!' as u8
        || c == '~' as u8
}

/// A key that gives one character, whatever the state of Shift.
pub open spec fn plain(c: u8) -> Option<LogicalKey> {
    Some(LogicalKey::Char(c))
}

/// A key that gives `lo`, or `hi` with Shift held.
pub open spec fn shifted(lo: u8, hi: u8, shift: bool) -> Option<LogicalKey> {
    Some(LogicalKey::Char(if shift { hi } else { lo }))
}

/// A key whose shifted symbol is left to the raw-text path.
pub open spec fn unshifted_only(c: u8, shift: bool) -> Option<LogicalKey> {
    if shift { None } else { Some(LogicalKey::Char(c)) }
}

/// The key table: what the device receives for a physical key, given whether
/// Shift is held.
pub open spec fn key_table(k: PhysicalKey, shift: bool) -> Option<LogicalKey> {
    match k {
        PhysicalKey::ArrowUp => Some(LogicalKey::Up),
        PhysicalKey::ArrowDown => Some(LogicalKey::Down),
        PhysicalKey::ArrowLeft => Some(LogicalKey::Left),
        PhysicalKey::ArrowRight => Some(LogicalKey::Right),
        PhysicalKey::Home => Some(LogicalKey::Home),
        PhysicalKey::Num0 => unshifted_only('0' as u8, shift),
        PhysicalKey::Num1 => unshifted_only('1' as u8, shift),
        PhysicalKey::Num2 => unshifted_only('2' as u8, shift),
        PhysicalKey::Num3 => unshifted_only('3' as u8, shift),
        PhysicalKey::Num4 => unshifted_only('4' as u8, shift),
        PhysicalKey::Num5 => unshifted_only('5' as u8, shift),
        PhysicalKey::Num6 => unshifted_only('6' as u8, shift),
        PhysicalKey::Num7 => unshifted_only('7' as u8, shift),
        PhysicalKey::Num8 => unshifted_only('8' as u8, shift),
        PhysicalKey::Num9 => unshifted_only('9' as u8, shift),
        PhysicalKey::A => shifted('a' as u8, 'A' as u8, shift),
        PhysicalKey::B => shifted('b' as u8, 'B' as u8, shift),
        PhysicalKey::C => shifted('c' as u8, 'C' as u8, shift),
        PhysicalKey::D => shifted('d' as u8, 'D' as u8, shift),
        PhysicalKey::E => shifted('e' as u8, 'E' as u8, shift),
        PhysicalKey::F => shifted('f' as u8, 'F' as u8, shift),
        PhysicalKey::G => shifted('g' as u8, 'G' as u8, shift),
        PhysicalKey::H => shifted('h' as u8, 'H' as u8, shift),
        PhysicalKey::I => shifted('i' as u8, 'I' as u8, shift),
        PhysicalKey::J => shifted('j' as u8, 'J' as u8, shift),
        PhysicalKey::K => shifted('k' as u8, 'K' as u8, shift),
        PhysicalKey::L => shifted('l' as u8, 'L' as u8, shift),
        PhysicalKey::M => shifted('m' as u8, 'M' as u8, shift),
        PhysicalKey::N => shifted('n' as u8, 'N' as u8, shift),
        PhysicalKey::O => shifted('o' as u8, 'O' as u8, shift),
        PhysicalKey::P => shifted('p' as u8, 'P' as u8, shift),
        PhysicalKey::Q => shifted('q' as u8, 'Q' as u8, shift),
        PhysicalKey::R => shifted('r' as u8, 'R' as u8, shift),
        PhysicalKey::S => shifted('s' as u8, 'S' as u8, shift),
        PhysicalKey::T => shifted('t' as u8, 'T' as u8, shift),
        PhysicalKey::U => shifted('u' as u8, 'U' as u8, shift),
        PhysicalKey::V => shifted('v' as u8, 'V' as u8, shift),
        PhysicalKey::W => shifted('w' as u8, 'W' as u8, shift),
        PhysicalKey::X => shifted('x' as u8, 'X' as u8, shift),
        PhysicalKey::Y => shifted('y' as u8, 'Y' as u8, shift),
        PhysicalKey::Z => shifted('z' as u8, 'Z' as u8, shift),
        PhysicalKey::Backtick => unshifted_only('`' as u8, shift),
        PhysicalKey::Backslash => plain('\\' as u8),
        PhysicalKey::Pipe => plain('|' as u8),
        PhysicalKey::Comma => shifted(',' as u8, '<' as u8, shift),
        PhysicalKey::Equals => plain('=' as u8),
        PhysicalKey::Plus => plain('+' as u8),
        PhysicalKey::OpenBracket => unshifted_only('[' as u8, shift),
        PhysicalKey::Minus => unshifted_only('-' as u8, shift),
        PhysicalKey::Period => shifted('.' as u8, '>' as u8, shift),
        PhysicalKey::CloseBracket => unshifted_only(']' as u8, shift),
        PhysicalKey::Semicolon => plain(';' as u8),
        PhysicalKey::Colon => plain(':' as u8),
        PhysicalKey::Slash => plain('/' as u8),
        PhysicalKey::Questionmark => plain('?' as u8),
        PhysicalKey::Space => plain(' ' as u8),
        PhysicalKey::Tab => plain('\t' as u8),
        PhysicalKey::Enter => plain('\r' as u8),
        PhysicalKey::Other => None,
    }
}

/// The raw-text path: the allow-listed bytes of a decoded text, in order.
pub open spec fn raw_filter(s: Seq<u8>) -> Seq<u8>
    decreases s.len(),
{
    if s.len() == 0 {
        Seq::empty()
    } else {
        let rest = raw_filter(s.drop_last());
        if is_raw_char(s.last()) {
            rest.push(s.last())
        } else {
            rest
        }
    }
}

fn char_of(lo: u8, hi: u8, shift: bool) -> (r: Option<LogicalKey>)
    ensures
        r == shifted(lo, hi, shift),
{
    Some(LogicalKey::Char(if shift { hi } else { lo }))
}

fn digit_row(c: u8, shift: bool) -> (r: Option<LogicalKey>)
    ensures
        r == unshifted_only(c, shift),
{
    if shift {
        None
    } else {
        Some(LogicalKey::Char(c))
    }
}

/// Decodes a physical key and the state of Shift into the key that the
/// device receives, or `None` for a key with no meaning to the device.
///
/// The result is a function of the two arguments alone.
pub fn decode_key(k: PhysicalKey, shift: bool) -> (r: Option<LogicalKey>)
    ensures
        r == key_table(k, shift),
{
    match k {
        PhysicalKey::ArrowUp => Some(LogicalKey::Up),
        PhysicalKey::ArrowDown => Some(LogicalKey::Down),
        PhysicalKey::ArrowLeft => Some(LogicalKey::Left),
        PhysicalKey::ArrowRight => Some(LogicalKey::Right),
        PhysicalKey::Home => Some(LogicalKey::Home),
        PhysicalKey::Num0 => digit_row('0' as u8, shift),
        PhysicalKey::Num1 => digit_row('1' as u8, shift),
        PhysicalKey::Num2 => digit_row('2' as u8, shift),
        PhysicalKey::Num3 => digit_row('3' as u8, shift),
        PhysicalKey::Num4 => digit_row('4' as u8, shift),
        PhysicalKey::Num5 => digit_row('5' as u8, shift),
        PhysicalKey::Num6 => digit_row('6' as u8, shift),
        PhysicalKey::Num7 => digit_row('7' as u8, shift),
        PhysicalKey::Num8 => digit_row('8' as u8, shift),
        PhysicalKey::Num9 => digit_row('9' as u8, shift),
        PhysicalKey::A => char_of('a' as u8, 'A' as u8, shift),
        PhysicalKey::B => char_of('b' as u8, 'B' as u8, shift),
        PhysicalKey::C => char_of('c' as u8, 'C' as u8, shift),
        PhysicalKey::D => char_of('d' as u8, 'D' as u8, shift),
        PhysicalKey::E => char_of('e' as u8, 'E' as u8, shift),
        PhysicalKey::F => char_of('f' as u8, 'F' as u8, shift),
        PhysicalKey::G => char_of('g' as u8, 'G' as u8, shift),
        PhysicalKey::H => char_of('h' as u8, 'H' as u8, shift),
        PhysicalKey::I => char_of('i' as u8, 'I' as u8, shift),
        PhysicalKey::J => char_of('j' as u8, 'J' as u8, shift),
        PhysicalKey::K => char_of('k' as u8, 'K' as u8, shift),
        PhysicalKey::L => char_of('l' as u8, 'L' as u8, shift),
        PhysicalKey::M => char_of('m' as u8, 'M' as u8, shift),
        PhysicalKey::N => char_of('n' as u8, 'N' as u8, shift),
        PhysicalKey::O => char_of('o' as u8, 'O' as u8, shift),
        PhysicalKey::P => char_of('p' as u8, 'P' as u8, shift),
        PhysicalKey::Q => char_of('q' as u8, 'Q' as u8, shift),
        PhysicalKey::R => char_of('r' as u8, 'R' as u8, shift),
        PhysicalKey::S => char_of('s' as u8, 'S' as u8, shift),
        PhysicalKey::T => char_of('t' as u8, 'T' as u8, shift),
        PhysicalKey::U => char_of('u' as u8, 'U' as u8, shift),
        PhysicalKey::V => char_of('v' as u8, 'V' as u8, shift),
        PhysicalKey::W => char_of('w' as u8, 'W' as u8, shift),
        PhysicalKey::X => char_of('x' as u8, 'X' as u8, shift),
        PhysicalKey::Y => char_of('y' as u8, 'Y' as u8, shift),
        PhysicalKey::Z => char_of('z' as u8, 'Z' as u8, shift),
        PhysicalKey::Backtick => digit_row('`' as u8, shift),
        PhysicalKey::Backslash => Some(LogicalKey::Char('\\' as u8)),
        PhysicalKey::Pipe => Some(LogicalKey::Char('|' as u8)),
        PhysicalKey::Comma => char_of(',' as u8, '<' as u8, shift),
        PhysicalKey::Equals => Some(LogicalKey::Char('=' as u8)),
        PhysicalKey::Plus => Some(LogicalKey::Char('+' as u8)),
        PhysicalKey::OpenBracket => digit_row('[' as u8, shift),
        PhysicalKey::Minus => digit_row('-' as u8, shift),
        PhysicalKey::Period => char_of('.' as u8, '>' as u8, shift),
        PhysicalKey::CloseBracket => digit_row(']' as u8, shift),
        PhysicalKey::Semicolon => Some(LogicalKey::Char(';' as u8)),
        PhysicalKey::Colon => Some(LogicalKey::Char(':' as u8)),
        PhysicalKey::Slash => Some(LogicalKey::Char('/' as u8)),
        PhysicalKey::Questionmark => Some(LogicalKey::Char('?' as u8)),
        PhysicalKey::Space => Some(LogicalKey::Char(' ' as u8)),
        PhysicalKey::Tab => Some(LogicalKey::Char('\t' as u8)),
        PhysicalKey::Enter => Some(LogicalKey::Char('\r' as u8)),
        PhysicalKey::Other => None,
    }
}

/// Whether a byte of decoded text is forwarded by the raw-text path.
pub fn raw_char(c: u8) -> (r: bool)
    ensures
        r == is_raw_char(c),
{
    c == '"' as u8
        || c == '\'' as u8
        || c == '{' as u8
        || c == '}' as u8
        || c == '_' as u8
        || c == ')' as u8
        || c == '(' as u8
        || c == '*' as u8
        || c == '&' as u8
        || c == '^' as u8
        || c == '%' as u8
        || c == '$' as u8
        || c == '#' as u8
        || c == '@' as u8
        || c == '!' as u8
        || c == '~' as u8
}

/// The bytes of a decoded text that the raw-text path forwards, in order.
pub fn raw_text_chars(text: &[u8]) -> (r: Vec<u8>)
    ensures
        r@ == raw_filter(text@),
{
    let mut out: Vec<u8> = Vec::new();
    let mut i: usize = 0;
    while i < text.len()
        invariant
            i <= text@.len(),
            out@ == raw_filter(text@.subrange(0, i as int)),
        decreases text@.len() - i,
    {
        proof {
            assert(text@.subrange(0, i + 1).drop_last() =~= text@.subrange(0, i as int));
        }
        if raw_char(text[i]) {
            out.push(text[i]);
        }
        i = i + 1;
    }
    proof {
        assert(text@.subrange(0, text@.len() as int) =~= text@);
    }
    out
}

/// Decoding is a pure table lookup: two decodings of the same key with the
/// same state of Shift give the same result.
pub proof fn lemma_decode_deterministic(
    k: PhysicalKey,
    shift: bool,
    first: Option<LogicalKey>,
    second: Option<LogicalKey>,
)
    requires
        first == key_table(k, shift),
        second == key_table(k, shift),
    ensures
        first == second,
{
}

/// The two paths never carry the same character: no key, with or without
/// Shift, decodes to a character that the raw-text path forwards.
pub proof fn lemma_paths_disjoint(k: PhysicalKey, shift: bool)
    ensures
        forall|c: u8| key_table(k, shift) == Some(LogicalKey::Char(c)) ==> !is_raw_char(c),
{
}

} // verus!
