use vstd::prelude::*;

verus! {

/// One step of a keyboard shortcut.
pub enum KbdEvent {
    Press { scan_code: u8, is_mod: bool },
    Release { scan_code: u8, is_mod: bool },
    Wait(u32),
}

/// A keyboard shortcut as a sequence of key events.
pub type KbdShortcut = Vec<KbdEvent>;

/// A boot-keyboard input report: modifier bits and up to six key codes.
#[derive(Clone, Copy, Debug)]
pub struct KeyReport {
    pub modifier: u8,
    pub keycodes: [u8; 6],
}

/// What the HID writer is asked to do, in order.
#[derive(Clone, Copy, Debug)]
pub enum HidStep {
    Send(KeyReport),
    Wait(u32),
}

/// Time between pressing a chord and releasing it.
pub const RELEASE_DELAY_MS: u32 = 250;

/// The left GUI modifier bit.
pub const MOD_LEFT_GUI: u8 = 0x08;

/// The Enter key code.
pub const KEY_ENTER: u8 = 0x28;

/// A report with no key held.
pub open spec fn is_release(k: KeyReport) -> bool {
    k.modifier == 0 && forall|i: int| 0 <= i < 6 ==> #[trigger] k.keycodes@[i] == 0
}

/// Press, wait, release: the steps of one chord.
pub open spec fn is_chord(steps: Seq<HidStep>, press: KeyReport) -> bool {
    &&& steps.len() == 3
    &&& steps[0] == HidStep::Send(press)
    &&& steps[1] == HidStep::Wait(RELEASE_DELAY_MS)
    &&& steps[2] matches HidStep::Send(k) && is_release(k)
}

pub fn release_report() -> (r: KeyReport)
    ensures
        is_release(r),
{
    KeyReport { modifier: 0, keycodes: [0, 0, 0, 0, 0, 0] }
}

/// The shortcut that a recognized spell sends: GUI + Enter.
pub fn launch_report() -> (r: KeyReport)
    ensures
        r.modifier == MOD_LEFT_GUI,
        r.keycodes@ == seq![KEY_ENTER, 0u8, 0u8, 0u8, 0u8, 0u8],
{
    let r = KeyReport { modifier: MOD_LEFT_GUI, keycodes: [KEY_ENTER, 0, 0, 0, 0, 0] };
    assert(r.keycodes@ =~= seq![KEY_ENTER, 0u8, 0u8, 0u8, 0u8, 0u8]);
    r
}

/// The HID steps for a match: the chord when it is confident, nothing otherwise.
pub fn dispatch(confident: bool, press: KeyReport) -> (r: Vec<HidStep>)
    ensures
        confident ==> is_chord(r@, press),
        !confident ==> r@.len() == 0,
{
    let mut steps: Vec<HidStep> = Vec::new();
    if confident {
        steps.push(HidStep::Send(press));
        steps.push(HidStep::Wait(RELEASE_DELAY_MS));
        steps.push(HidStep::Send(release_report()));
    }
    steps
}

} // verus!
