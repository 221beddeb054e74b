//! What a front end needs to steer playback through a list of tracks:
//! which track comes next, what a key press means, how a dropped path is
//! read. Scanning directories, drawing and shuffling are the front end's
//! own work.

use vstd::prelude::*;

verus! {

/// Whether and how the list repeats.
#[derive(Clone, Copy, Debug, PartialEq, Eq, Structural)]
pub enum RepeatMode {
    /// Stop at the end of the list.
    Off,
    /// Start over at the end of the list.
    All,
    /// Play the same track again.
    Track,
}

impl Default for RepeatMode {
    fn default() -> (r: Self)
        ensures
            r == RepeatMode::Off,
    {
        RepeatMode::Off
    }
}

impl RepeatMode {
    /// The mode after this one: off, all, track, and off again.
    pub fn cycle(self) -> (r: RepeatMode)
        ensures
            r == match self {
                RepeatMode::Off => RepeatMode::All,
                RepeatMode::All => RepeatMode::Track,
                RepeatMode::Track => RepeatMode::Off,
            },
    {
        match self {
            RepeatMode::Off => RepeatMode::All,
            RepeatMode::All => RepeatMode::Track,
            RepeatMode::Track => RepeatMode::Off,
        }
    }
}

/// How the user wants the device driven.
#[derive(Clone, Copy, Debug, PartialEq, Eq, Structural)]
pub enum OutputModeChoice {
    /// Directly and exclusively: the best path.
    HalExclusive,
    /// Through the system mixer: the compatible path.
    SystemMixer,
}

impl Default for OutputModeChoice {
    fn default() -> (r: Self)
        ensures
            r == OutputModeChoice::HalExclusive,
    {
        OutputModeChoice::HalExclusive
    }
}

impl OutputModeChoice {
    /// The choice at a position of the dialog: the direct path first.
    pub fn from_index(index: usize) -> (r: OutputModeChoice)
        ensures
            r == if index == 0 {
                OutputModeChoice::HalExclusive
            } else {
                OutputModeChoice::SystemMixer
            },
    {
        if index == 0 {
            OutputModeChoice::HalExclusive
        } else {
            OutputModeChoice::SystemMixer
        }
    }

    /// Whether the choice asks for the direct, exclusive path.
    pub fn use_hal(self) -> (r: bool)
        ensures
            r == (self == OutputModeChoice::HalExclusive),
    {
        match self {
            OutputModeChoice::HalExclusive => true,
            OutputModeChoice::SystemMixer => false,
        }
    }
}

/// The dialog that a front end shows, if any.
#[derive(Debug)]
pub enum DialogState {
    /// No dialog.
    Closed,
    /// The choice of the output mode, before this path is loaded.
    OutputModeSelect { pending_path: String, selected: OutputModeChoice },
}

impl Default for DialogState {
    fn default() -> (r: Self)
        ensures
            r is Closed,
    {
        DialogState::Closed
    }
}

/// Where to go at the end of a track or on a skip.
#[derive(Clone, Copy, Debug, PartialEq, Eq, Structural)]
pub enum Advance {
    /// Play the current track again.
    Replay,
    /// Play the track at this index.
    Go(usize),
    /// The list is over.
    Finished,
}

/// The first position of `index` in `order`, if it is there.
pub fn position_in(order: &[usize], index: usize) -> (r: Option<usize>)
    ensures
        match r {
            Some(p) => p < order@.len() && order@[p as int] == index && forall|q: int|
                0 <= q < p ==> order@[q] != index,
            None => forall|q: int| 0 <= q < order@.len() ==> order@[q] != index,
        },
{
    let mut p: usize = 0;
    while p < order.len()
        invariant
            p <= order@.len(),
            forall|q: int| 0 <= q < p ==> order@[q] != index,
        decreases order@.len() - p,
    {
        if order[p] == index {
            return Some(p);
        }
        p += 1;
    }
    None
}

/// The track after `current` in a list played in order: the next one, or
/// the first one again if the list repeats.
pub open spec fn next_in_order(current: usize, len: usize, repeat: RepeatMode) -> Advance {
    if current + 1 < len {
        Advance::Go((current + 1) as usize)
    } else if repeat == RepeatMode::All {
        Advance::Go(0)
    } else {
        Advance::Finished
    }
}

/// The track after the one at position `pos` of a shuffled order.
pub open spec fn next_in_shuffle(order: Seq<usize>, pos: Option<int>, repeat: RepeatMode) -> Advance {
    match pos {
        Some(p) => if p + 1 < order.len() {
            Advance::Go(order[p + 1])
        } else if repeat == RepeatMode::All {
            Advance::Go(order[0])
        } else {
            Advance::Finished
        },
        None => if order.len() > 0 {
            Advance::Go(order[0])
        } else {
            Advance::Finished
        },
    }
}

/// Where playback goes after the track at `current`, in a list of `len`
/// tracks. At the end of a track that repeats, the same track plays
/// again; a skip by hand moves on even then. With a shuffled order the
/// next track is the one that follows the current track in that order (the
/// first one if the current track is not in it); without, the one that
/// follows it in the list. At the end, a list that repeats starts over.
/// An empty list has nowhere to go.
pub fn next_track(
    current: usize,
    len: usize,
    shuffle_order: Option<&[usize]>,
    repeat: RepeatMode,
    auto_advance: bool,
) -> (r: Advance)
    ensures
        len == 0 ==> r == Advance::Finished,
        len > 0 && auto_advance && repeat == RepeatMode::Track ==> r == Advance::Replay,
        len > 0 && !(auto_advance && repeat == RepeatMode::Track) ==> match shuffle_order {
            Some(order) => exists|pos: Option<int>|
                {
                    &&& r == #[trigger] next_in_shuffle(order@, pos, repeat)
                    &&& match pos {
                        Some(p) => 0 <= p < order@.len() && order@[p] == current && forall|q: int|
                            0 <= q < p ==> order@[q] != current,
                        None => forall|q: int| 0 <= q < order@.len() ==> order@[q] != current,
                    }
                },
            None => r == next_in_order(current, len, repeat),
        },
{
    if len == 0 {
        return Advance::Finished;
    }
    let repeat_track: bool = match repeat {
        RepeatMode::Track => true,
        _ => false,
    };
    let repeat_all: bool = match repeat {
        RepeatMode::All => true,
        _ => false,
    };
    if auto_advance && repeat_track {
        return Advance::Replay;
    }
    match shuffle_order {
        Some(order) => {
            let found: Option<usize> = position_in(order, current);
            let ghost pos: Option<int> = match found {
                Some(p) => Some(p as int),
                None => None,
            };
            let r: Advance = match found {
                Some(p) => {
                    if p < order.len() - 1 {
                        Advance::Go(order[p + 1])
                    } else if repeat_all {
                        Advance::Go(order[0])
                    } else {
                        Advance::Finished
                    }
                },
                None => {
                    if order.len() > 0 {
                        Advance::Go(order[0])
                    } else {
                        Advance::Finished
                    }
                },
            };
            assert(r == next_in_shuffle(order@, pos, repeat));
            r
        },
        None => {
            if current < len - 1 {
                Advance::Go(current + 1)
            } else if repeat_all {
                Advance::Go(0)
            } else {
                Advance::Finished
            }
        },
    }
}

/// The track before `current` in a list of `len` tracks, wrapping from
/// the first to the last. With a shuffled order, the track that precedes
/// the current one in that order (the first one if the current track is
/// not in it, and track 0 if the order is empty).
pub fn prev_track(current: usize, len: usize, shuffle_order: Option<&[usize]>) -> (r: usize)
    requires
        len > 0,
    ensures
        match shuffle_order {
            Some(order) => if order@.len() == 0 {
                r == 0
            } else if order@[0] == current || !order@.contains(current) {
                if order@[0] == current {
                    r == order@[order@.len() - 1]
                } else {
                    r == order@[0]
                }
            } else {
                exists|p: int|
                    0 < p < order@.len() && #[trigger] order@[p] == current && r == order@[p - 1]
                        && forall|q: int| 0 <= q < p ==> order@[q] != current
            },
            None => r == if current > 0 {
                current - 1
            } else {
                len - 1
            },
        },
{
    match shuffle_order {
        Some(order) => {
            if order.len() == 0 {
                return 0;
            }
            match position_in(order, current) {
                Some(p) => {
                    if p > 0 {
                        assert(order@[p as int] == current);
                        order[p - 1]
                    } else {
                        order[order.len() - 1]
                    }
                },
                None => {
                    assert(!order@.contains(current));
                    order[0]
                },
            }
        },
        None => {
            if current > 0 {
                current - 1
            } else {
                len - 1
            }
        },
    }
}

/// The search result after index `at` of `len` results, wrapping around.
pub fn next_result(at: usize, len: usize) -> (r: usize)
    requires
        len > 0,
        at < len,
    ensures
        r == if at + 1 == len {
            0
        } else {
            at + 1
        },
{
    if at + 1 == len {
        0
    } else {
        at + 1
    }
}

/// The search result before index `at` of `len` results, wrapping around.
pub fn prev_result(at: usize, len: usize) -> (r: usize)
    requires
        len > 0,
    ensures
        r == if at == 0 {
            len - 1
        } else {
            at - 1
        },
{
    if at == 0 {
        len - 1
    } else {
        at - 1
    }
}

/// A skip that the user asked for, if any.
#[derive(Clone, Copy, Debug, PartialEq, Eq, Structural)]
pub enum SkipCommand {
    /// No skip: the track ended by itself.
    Continue,
    Next,
    Previous,
}

/// The index to play after the track at `current` of a directory of `len`
/// tracks: one further at the end of the track or on a skip forward, one
/// back on a skip backward. Before the first track comes the last one if
/// the list repeats, and the first one again if not. The result may be
/// `len`: the list is over then, unless it repeats.
pub fn directory_step(current: usize, len: usize, command: SkipCommand, repeat: bool) -> (r: usize)
    requires
        current < len,
    ensures
        r == match command {
            SkipCommand::Previous => if current > 0 {
                current - 1
            } else if repeat {
                len - 1
            } else {
                0
            },
            _ => current + 1,
        },
{
    match command {
        SkipCommand::Previous => {
            if current > 0 {
                current - 1
            } else if repeat {
                len - 1
            } else {
                0
            }
        },
        _ => current + 1,
    }
}

/// A key, as far as the player cares.
#[derive(Clone, Copy, Debug, PartialEq, Eq, Structural)]
pub enum KeyPress {
    Space,
    Left,
    Right,
    Other(u8),
}

/// The key that a byte from the terminal stands for. `sequence` holds the
/// two bytes that followed an escape, if two followed: an arrow key is an
/// escape, a bracket and a letter.
pub fn decode_key(first: u8, sequence: Option<(u8, u8)>) -> (key: KeyPress)
    ensures
        key == if first == 0x20 {
            KeyPress::Space
        } else if first == 0x1B {
            match sequence {
                Some((a, b)) => if a == 0x5B && b == 0x43 {
                    KeyPress::Right
                } else if a == 0x5B && b == 0x44 {
                    KeyPress::Left
                } else {
                    KeyPress::Other(0x1B)
                },
                None => KeyPress::Other(0x1B),
            }
        } else {
            KeyPress::Other(first)
        },
{
    if first == 0x20 {
        KeyPress::Space
    } else if first == 0x1B {
        match sequence {
            Some(pair) => {
                if pair.0 == 0x5B && pair.1 == 0x43 {
                    KeyPress::Right
                } else if pair.0 == 0x5B && pair.1 == 0x44 {
                    KeyPress::Left
                } else {
                    KeyPress::Other(0x1B)
                }
            },
            None => KeyPress::Other(0x1B),
        }
    } else {
        KeyPress::Other(first)
    }
}

/// The size of the ring buffer, in samples, for a buffer of `buffer_ms`
/// milliseconds: 48 samples per millisecond and a thousand to spare.
pub fn buffer_frames_for(buffer_ms: u32) -> (frames: u64)
    ensures
        frames == buffer_ms * 48 + 1000,
{
    (buffer_ms as u64) * 48 + 1000
}

/// A path as a shell escapes it, with the escapes taken out: a backslash
/// stands for the character after it; a backslash at the very end stands
/// for itself.
pub open spec fn unescaped(text: Seq<u8>) -> Seq<u8>
    decreases text.len(),
{
    if text.len() == 0 {
        text
    } else if text[0] == 0x5C && text.len() > 1 {
        seq![text[1]] + unescaped(text.skip(2))
    } else {
        seq![text[0]] + unescaped(text.skip(1))
    }
}

/// Takes the shell escapes out of a path, given as the bytes of its
/// UTF-8 text: see [`unescaped`].
pub fn unescape_shell_path(text: &[u8]) -> (r: Vec<u8>)
    ensures
        r@ == unescaped(text@),
{
    let mut r: Vec<u8> = Vec::new();
    let mut i: usize = 0;
    assert(text@.skip(0) =~= text@);
    while i < text.len()
        invariant
            i <= text@.len(),
            r@ + unescaped(text@.skip(i as int)) == unescaped(text@),
        decreases text@.len() - i,
    {
        let ghost rest = text@.skip(i as int);
        let ghost before = r@;
        if text[i] == 0x5C && i + 1 < text.len() {
            r.push(text[i + 1]);
            proof {
                assert(rest.skip(2) =~= text@.skip(i + 2));
                assert(r@ + unescaped(text@.skip(i + 2)) =~= before + (seq![text@[i + 1]]
                    + unescaped(text@.skip(i + 2))));
            }
            i += 2;
        } else {
            r.push(text[i]);
            proof {
                assert(rest.skip(1) =~= text@.skip(i + 1));
                assert(r@ + unescaped(text@.skip(i + 1)) =~= before + (seq![text@[i as int]]
                    + unescaped(text@.skip(i + 1))));
            }
            i += 1;
        }
    }
    assert(text@.skip(text@.len() as int) =~= Seq::<u8>::empty());
    assert(r@ + Seq::<u8>::empty() =~= r@);
    r
}

/// How many lines a log keeps.
pub const LOG_LINES: usize = 50;

/// Appends a line to a log that keeps the latest fifty.
pub fn push_log(logs: &mut Vec<String>, line: String)
    ensures
        final(logs)@ == if old(logs)@.len() >= LOG_LINES {
            old(logs)@.skip(1).push(line)
        } else {
            old(logs)@.push(line)
        },
{
    if logs.len() >= LOG_LINES {
        let _ = logs.remove(0);
        assert(logs@ =~= old(logs)@.skip(1));
    }
    logs.push(line);
}

} // verus!
