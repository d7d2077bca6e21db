use vstd::prelude::*;

verus! {

/// Whether `core::str::from_utf8` accepts these bytes.
pub uninterp spec fn utf8_valid(b: Seq<u8>) -> bool;

/// Relies on `core::str::from_utf8`: it succeeds exactly on well-formed UTF-8,
/// which depends on the bytes alone.
#[verifier::external_body]
fn is_utf8(data: &[u8]) -> (r: bool)
    ensures
        r == utf8_valid(data@),
{
    core::str::from_utf8(data).is_ok()
}

/// Whether the recognizer stores incoming shapes or matches them.
#[derive(PartialEq, Eq, Structural, Clone, Copy, Debug)]
pub enum Mode {
    Learning,
    Casting,
}

/// What a line of the text command stream asks for.
#[derive(Debug)]
pub enum Command {
    /// `/greet <name>`: a diagnostic greeting, holding the name's bytes.
    Greet(Vec<u8>),
    /// `/learn`: store the strokes that follow.
    Learn,
    /// `/cast`: match the strokes that follow.
    Cast,
    /// Any other line that starts with `/`.
    Unknown,
    /// A line that is no command.
    Chat,
    /// Bytes that are not UTF-8.
    Malformed,
}

pub open spec fn has_prefix(s: Seq<u8>, p: Seq<u8>) -> bool {
    p.len() <= s.len() && s.subrange(0, p.len() as int) == p
}

/// `/greet `
pub open spec fn greet_word() -> Seq<u8> {
    seq![47u8, 103, 114, 101, 101, 116, 32]
}

/// `/learn`
pub open spec fn learn_word() -> Seq<u8> {
    seq![47u8, 108, 101, 97, 114, 110]
}

/// `/cast`
pub open spec fn cast_word() -> Seq<u8> {
    seq![47u8, 99, 97, 115, 116]
}

/// `/`
pub open spec fn slash() -> Seq<u8> {
    seq![47u8]
}

/// The command that `data` holds, given whether it is valid UTF-8. The
/// prefixes are tried in this order, so `/greet ` wins over the rest.
pub open spec fn is_command(data: Seq<u8>, valid: bool, r: Command) -> bool {
    if !valid {
        r is Malformed
    } else if has_prefix(data, greet_word()) {
        r matches Command::Greet(name) && name@ == data.subrange(7, data.len() as int)
    } else if has_prefix(data, learn_word()) {
        r is Learn
    } else if has_prefix(data, cast_word()) {
        r is Cast
    } else if has_prefix(data, slash()) {
        r is Unknown
    } else {
        r is Chat
    }
}

fn starts_with(data: &[u8], prefix: &[u8]) -> (r: bool)
    ensures
        r == has_prefix(data@, prefix@),
{
    if prefix.len() > data.len() {
        return false;
    }
    let mut i: usize = 0;
    while i < prefix.len()
        invariant
            prefix@.len() <= data@.len(),
            i <= prefix@.len(),
            forall|j: int| 0 <= j < i ==> data@[j] == prefix@[j],
        decreases prefix@.len() - i,
    {
        if data[i] != prefix[i] {
            assert(data@.subrange(0, prefix@.len() as int)[i as int] != prefix@[i as int]);
            return false;
        }
        i = i + 1;
    }
    assert(data@.subrange(0, prefix@.len() as int) =~= prefix@);
    true
}

fn tail_from(data: &[u8], start: usize) -> (r: Vec<u8>)
    requires
        start <= data@.len(),
    ensures
        r@ == data@.subrange(start as int, data@.len() as int),
{
    let mut out: Vec<u8> = Vec::new();
    let mut i: usize = start;
    while i < data.len()
        invariant
            start <= i <= data@.len(),
            out@ == data@.subrange(start as int, i as int),
        decreases data@.len() - i,
    {
        out.push(data[i]);
        i = i + 1;
        assert(out@ =~= data@.subrange(start as int, i as int));
    }
    out
}

/// Reads a command line whose UTF-8 validity is already known.
pub fn classify_command(data: &[u8], valid: bool) -> (r: Command)
    ensures
        is_command(data@, valid, r),
{
    if !valid {
        return Command::Malformed;
    }
    // "/greet ", "/learn", "/cast", "/"
    let greet: [u8; 7] = [47, 103, 114, 101, 101, 116, 32];
    let learn: [u8; 6] = [47, 108, 101, 97, 114, 110];
    let cast: [u8; 5] = [47, 99, 97, 115, 116];
    let any: [u8; 1] = [47];
    assert(greet@ =~= greet_word());
    assert(learn@ =~= learn_word());
    assert(cast@ =~= cast_word());
    assert(any@ =~= slash());
    if starts_with(data, greet.as_slice()) {
        Command::Greet(tail_from(data, 7))
    } else if starts_with(data, learn.as_slice()) {
        Command::Learn
    } else if starts_with(data, cast.as_slice()) {
        Command::Cast
    } else if starts_with(data, any.as_slice()) {
        Command::Unknown
    } else {
        Command::Chat
    }
}

/// The mode after a command: only `/learn` and `/cast` change it.
pub open spec fn mode_after(mode: Mode, cmd: Command) -> Mode {
    match cmd {
        Command::Learn => Mode::Learning,
        Command::Cast => Mode::Casting,
        _ => mode,
    }
}

impl Command {
    pub fn next_mode(&self, mode: Mode) -> (r: Mode)
        ensures
            r == mode_after(mode, *self),
    {
        match self {
            Command::Learn => Mode::Learning,
            Command::Cast => Mode::Casting,
            _ => mode,
        }
    }
}

/// Receives the lines of the serial command stream.
pub struct CmdHandler {}

impl CmdHandler {
    pub fn new() -> (r: Self) {
        CmdHandler {}
    }

    /// Interprets one received line.
    pub fn handle_data(&self, data: &[u8]) -> (r: Command)
        ensures
            is_command(data@, utf8_valid(data@), r),
    {
        let valid = is_utf8(data);
        classify_command(data, valid)
    }
}

} // verus!
