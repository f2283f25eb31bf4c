//! Navigating a foreground file dialog by keyboard injection: bring the
//! dialog forward, press Ctrl+L to put its address bar in edit mode, type
//! the path as UTF-16 code units and press Enter. This module builds the
//! exact input sequence; the application hands each batch to `SendInput`.

use vstd::prelude::*;
use crate::text::utf16_lossy;

verus! {

pub const VK_CONTROL: u16 = 0x11;
pub const VK_L: u16 = 0x4C;
pub const VK_RETURN: u16 = 0x0D;
/// Pause after bringing the dialog to the foreground.
pub const FOCUS_SETTLE_MS: u64 = 50;
/// Pause after Ctrl+L, before typing.
pub const AFTER_CTRL_L_MS: u64 = 40;

/// The UTF-16 code units of one character.
pub open spec fn utf16_of_char(c: char) -> Seq<u16> {
    let v = c as u32 as int;
    if v < 0x10000 {
        seq![v as u16]
    } else {
        let w = v - 0x10000;
        seq![(0xD800 + w / 0x400) as u16, (0xDC00 + w % 0x400) as u16]
    }
}

/// The UTF-16 encoding of a character sequence.
pub open spec fn utf16_units(s: Seq<char>) -> Seq<u16>
    decreases s.len(),
{
    if s.len() == 0 {
        Seq::empty()
    } else {
        utf16_units(s.drop_last()) + utf16_of_char(s.last())
    }
}

proof fn lemma_utf16_units_append(a: Seq<char>, b: Seq<char>)
    ensures
        utf16_units(a + b) == utf16_units(a) + utf16_units(b),
    decreases b.len(),
{
    if b.len() == 0 {
        assert(a + b =~= a);
        assert(utf16_units(a) + utf16_units(b) =~= utf16_units(a));
    } else {
        lemma_utf16_units_append(a, b.drop_last());
        assert((a + b).drop_last() =~= a + b.drop_last());
        assert((a + b).last() == b.last());
        assert(utf16_units(a) + utf16_units(b) =~= utf16_units(a) + utf16_units(b.drop_last())
            + utf16_of_char(b.last()));
    }
}

proof fn lemma_decode_one(c: char, u: Seq<u16>)
    ensures
        utf16_lossy(utf16_of_char(c) + u) == seq![c] + utf16_lossy(u),
{
    let v = c as u32 as int;
    let e = utf16_of_char(c) + u;
    if v < 0x10000 {
        assert(v < 0xD800 || v > 0xDFFF);
        assert(e[0] == v as u16);
        assert(e.drop_first() =~= u);
        assert((v as u16) as char == c);
    } else {
        let w = v - 0x10000;
        assert(0 <= w <= 0xFFFFF);
        let hi = 0xD800 + w / 0x400;
        let lo = 0xDC00 + w % 0x400;
        assert(0xD800 <= hi <= 0xDBFF) by (nonlinear_arith)
            requires
                hi == 0xD800 + w / 0x400,
                0 <= w <= 0xFFFFF,
        ;
        assert(0xDC00 <= lo <= 0xDFFF) by (nonlinear_arith)
            requires
                lo == 0xDC00 + w % 0x400,
                0 <= w,
        ;
        assert(e[0] == hi as u16);
        assert(e[1] == lo as u16);
        assert(e.subrange(2, e.len() as int) =~= u);
        assert((hi - 0xD800) * 0x400 + (lo - 0xDC00) == w) by (nonlinear_arith)
            requires
                hi == 0xD800 + w / 0x400,
                lo == 0xDC00 + w % 0x400,
                0 <= w,
        ;
        assert((0x10000 + w) as char == c);
    }
}

/// Decoding what `encode_utf16` produces gives the characters back:
/// UTF-16 encoding loses nothing, so a path typed into a dialog or
/// copied to the clipboard reads back unchanged.
pub proof fn lemma_utf16_round_trip(s: Seq<char>)
    ensures
        utf16_lossy(utf16_units(s)) == s,
    decreases s.len(),
{
    if s.len() > 0 {
        let rest = s.drop_first();
        lemma_utf16_round_trip(rest);
        lemma_utf16_units_append(seq![s[0]], rest);
        assert(seq![s[0]] + rest =~= s);
        let one = seq![s[0]];
        assert(one.drop_last() =~= Seq::<char>::empty());
        assert(utf16_units(one.drop_last()) =~= Seq::<u16>::empty());
        assert(one.last() == s[0]);
        assert(utf16_units(one) =~= Seq::<u16>::empty() + utf16_of_char(s[0]));
        assert(utf16_units(one) =~= utf16_of_char(s[0]));
        lemma_decode_one(s[0], utf16_units(rest));
        assert(seq![s[0]] + rest =~= s);
    } else {
        assert(utf16_units(s) =~= Seq::<u16>::empty());
        assert(utf16_lossy(Seq::<u16>::empty()) =~= s);
    }
}

/// `s` encoded as UTF-16.
pub fn encode_utf16(s: &str) -> (r: Vec<u16>)
    ensures
        r@ == utf16_units(s@),
{
    let n = s.unicode_len();
    let mut out: Vec<u16> = Vec::new();
    let mut i: usize = 0;
    while i < n
        invariant
            n == s@.len(),
            i <= n,
            out@ == utf16_units(s@.take(i as int)),
        decreases n - i,
    {
        let c = s.get_char(i);
        let v: u32 = c as u32;
        assert(s@.take(i as int + 1).drop_last() =~= s@.take(i as int));
        assert(s@.take(i as int + 1).last() == c);
        if v < 0x10000 {
            out.push(v as u16);
            assert(out@ =~= utf16_units(s@.take(i as int)) + utf16_of_char(c));
        } else {
            let w: u32 = v - 0x10000;
            assert(v <= 0x10FFFF);
            out.push((0xD800 + w / 0x400) as u16);
            out.push((0xDC00 + w % 0x400) as u16);
            assert(out@ =~= utf16_units(s@.take(i as int)) + utf16_of_char(c));
        }
        i = i + 1;
    }
    assert(s@.take(n as int) =~= s@);
    out
}

/// `s` encoded as UTF-16 with a terminating zero unit, as Win32 string
/// parameters take it.
pub fn wide_null(s: &str) -> (r: Vec<u16>)
    ensures
        r@ == utf16_units(s@).push(0u16),
{
    let mut v = encode_utf16(s);
    v.push(0);
    v
}

/// One synthesized keyboard event.
#[derive(Debug, Clone, Copy, PartialEq, Eq, Structural)]
pub enum KeyInput {
    /// A virtual-key press or release.
    Virtual { vk: u16, key_up: bool },
    /// A `KEYEVENTF_UNICODE` press or release of one UTF-16 unit.
    Unicode { unit: u16, key_up: bool },
}

/// Ctrl down, L down, L up, Ctrl up.
pub open spec fn ctrl_l_spec() -> Seq<KeyInput> {
    seq![
        KeyInput::Virtual { vk: VK_CONTROL, key_up: false },
        KeyInput::Virtual { vk: VK_L, key_up: false },
        KeyInput::Virtual { vk: VK_L, key_up: true },
        KeyInput::Virtual { vk: VK_CONTROL, key_up: true },
    ]
}

/// Enter down, Enter up.
pub open spec fn enter_spec() -> Seq<KeyInput> {
    seq![
        KeyInput::Virtual { vk: VK_RETURN, key_up: false },
        KeyInput::Virtual { vk: VK_RETURN, key_up: true },
    ]
}

/// A press and a release for each unit, in order.
pub open spec fn typing_spec(units: Seq<u16>) -> Seq<KeyInput> {
    Seq::new(
        2 * units.len(),
        |k: int| KeyInput::Unicode { unit: units[k / 2], key_up: k % 2 == 1 },
    )
}

pub fn ctrl_l_inputs() -> (r: Vec<KeyInput>)
    ensures
        r@ == ctrl_l_spec(),
{
    let v = vec![
        KeyInput::Virtual { vk: VK_CONTROL, key_up: false },
        KeyInput::Virtual { vk: VK_L, key_up: false },
        KeyInput::Virtual { vk: VK_L, key_up: true },
        KeyInput::Virtual { vk: VK_CONTROL, key_up: true },
    ];
    assert(v@ =~= ctrl_l_spec());
    v
}

pub fn enter_inputs() -> (r: Vec<KeyInput>)
    ensures
        r@ == enter_spec(),
{
    let v = vec![
        KeyInput::Virtual { vk: VK_RETURN, key_up: false },
        KeyInput::Virtual { vk: VK_RETURN, key_up: true },
    ];
    assert(v@ =~= enter_spec());
    v
}

/// The keystrokes that type `path`.
pub fn typing_inputs(path: &str) -> (r: Vec<KeyInput>)
    ensures
        r@ == typing_spec(utf16_units(path@)),
{
    let units = encode_utf16(path);
    let mut out: Vec<KeyInput> = Vec::new();
    let mut i: usize = 0;
    while i < units.len()
        invariant
            i <= units@.len(),
            out@ == typing_spec(units@.take(i as int)),
        decreases units@.len() - i,
    {
        let u = units[i];
        out.push(KeyInput::Unicode { unit: u, key_up: false });
        out.push(KeyInput::Unicode { unit: u, key_up: true });
        assert(out@ =~= typing_spec(units@.take(i as int + 1)));
        i = i + 1;
    }
    assert(units@.take(units@.len() as int) =~= units@);
    out
}

/// One step of the navigation.
#[derive(Debug, PartialEq, Eq)]
pub enum NavStep {
    /// `SetForegroundWindow` on the dialog.
    Focus,
    /// Sleep for `ms` milliseconds.
    Pause { ms: u64 },
    /// `SendInput` of the batch; the navigation fails unless every input is
    /// accepted.
    Send { inputs: Vec<KeyInput> },
}

/// Whether `steps` is the navigation to a path whose UTF-16 units are
/// `units`: focus, pause, Ctrl+L, pause, the typing (left out for an empty
/// path), Enter.
pub open spec fn plan_matches(steps: Seq<NavStep>, units: Seq<u16>) -> bool {
    let head = 4 + (if units.len() > 0 { 1int } else { 0int });
    &&& steps.len() == head + 1
    &&& steps[0] is Focus
    &&& steps[1] matches NavStep::Pause { ms } && ms == FOCUS_SETTLE_MS
    &&& steps[2] matches NavStep::Send { inputs } && inputs@ == ctrl_l_spec()
    &&& steps[3] matches NavStep::Pause { ms } && ms == AFTER_CTRL_L_MS
    &&& units.len() > 0 ==> (steps[4] matches NavStep::Send { inputs } && inputs@ == typing_spec(
        units,
    ))
    &&& steps[head] matches NavStep::Send { inputs } && inputs@ == enter_spec()
}

/// `KeybdDialogNavigator::navigate` as a plan of steps.
pub fn navigation_plan(path: &str) -> (r: Vec<NavStep>)
    ensures
        plan_matches(r@, utf16_units(path@)),
{
    let mut steps: Vec<NavStep> = Vec::new();
    steps.push(NavStep::Focus);
    steps.push(NavStep::Pause { ms: FOCUS_SETTLE_MS });
    steps.push(NavStep::Send { inputs: ctrl_l_inputs() });
    steps.push(NavStep::Pause { ms: AFTER_CTRL_L_MS });
    let typing = typing_inputs(path);
    if typing.len() > 0 {
        steps.push(NavStep::Send { inputs: typing });
    }
    steps.push(NavStep::Send { inputs: enter_inputs() });
    steps
}

/// Why an injection step failed.
#[derive(Debug, Clone, Copy, PartialEq, Eq, Structural)]
pub enum NavError {
    /// `SendInput` accepted `sent` of the `expected` inputs.
    ShortSend { sent: u32, expected: usize },
}

/// The outcome of one `SendInput` call that accepted `sent` of `expected`
/// inputs.
pub fn check_sent(sent: u32, expected: usize) -> (r: Result<(), NavError>)
    ensures
        sent as int == expected as int ==> r is Ok,
        sent as int != expected as int ==> r == Err::<(), NavError>(
            NavError::ShortSend { sent, expected },
        ),
{
    if sent as u64 == expected as u64 {
        Ok(())
    } else {
        Err(NavError::ShortSend { sent, expected })
    }
}

/// The dialog navigator that types into the address bar.
#[derive(Debug, Clone, Copy, Default)]
pub struct KeybdDialogNavigator;

impl KeybdDialogNavigator {
    pub fn new() -> (r: KeybdDialogNavigator)
        ensures
            r == KeybdDialogNavigator,
    {
        KeybdDialogNavigator
    }
}

} // verus!
