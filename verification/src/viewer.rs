//! Showing the window on a terminal: when it is drawn again, and when the reader is let go.
use vstd::prelude::*;

use crate::text;

verus! {

/// How long a viewer waits for a key before it asks for the window again, in milliseconds.
pub const REFRESH_MS: u64 = 100;

pub const ESCAPE: u8 = 0x1b;

pub const INTERRUPT: u8 = 0x03;

/// What came of waiting for a key.
#[derive(Debug, Clone, Copy, PartialEq, Eq)]
pub enum Key {
    Pressed(u8),
    Nothing,
    Ended,
}

/// The milliseconds of a patience as a wait for a key takes them: no more than it can hold.
pub fn wait_ms(millis: u128) -> (wait: i32)
    ensures
        wait == if millis <= i32::MAX {
            millis as i32
        } else {
            i32::MAX
        },
{
    if millis <= i32::MAX as u128 {
        millis as i32
    } else {
        i32::MAX
    }
}

/// Tells whether there is a key to be read, from what the wait for one returned.
pub fn key_ready(ready: i32) -> (outcome: Result<bool, String>)
    ensures
        outcome is Err <==> ready < 0,
        outcome matches Ok(there) ==> there == (ready != 0),
        outcome matches Err(complaint) ==> complaint@ == "cannot wait for a key"@,
{
    if ready < 0 {
        return Err("cannot wait for a key".to_owned());
    }
    Ok(ready != 0)
}

/// Tells which key was read, from how many bytes were read and the first of them.
pub fn key_read(read: usize, byte: u8) -> (key: Key)
    ensures
        key == if read == 0 {
            Key::Ended
        } else {
            Key::Pressed(byte)
        },
{
    if read == 0 {
        Key::Ended
    } else {
        Key::Pressed(byte)
    }
}

/// Tells whether the settings of the terminal are known, from what reading them returned.
pub fn settings_read(returned: i32) -> (outcome: Result<(), String>)
    ensures
        outcome is Ok <==> returned == 0,
        outcome matches Err(complaint) ==> complaint@ == "cannot read the terminal's settings"@,
{
    if returned != 0 {
        return Err("cannot read the terminal's settings".to_owned());
    }
    Ok(())
}

/// Tells whether the terminal gives single keys, from what setting it so returned.
pub fn keys_taken(returned: i32) -> (outcome: Result<(), String>)
    ensures
        outcome is Ok <==> returned == 0,
        outcome matches Err(complaint) ==> complaint@
            == "cannot take single keys from the terminal"@,
{
    if returned != 0 {
        return Err("cannot take single keys from the terminal".to_owned());
    }
    Ok(())
}

/// What a viewer does next.
#[derive(Debug, Clone, Copy, PartialEq, Eq)]
pub enum Move {
    /// Let the reader go.
    Leave,
    /// Wait for the next key.
    Wait,
    /// Ask for the window, and then wait for the next key.
    Fetch,
}

/// Whether a key lets the reader go.
pub open spec fn leaves(key: Key) -> bool {
    match key {
        Key::Pressed(byte) => byte == 'q' as u8 || byte == 'Q' as u8 || byte == ESCAPE || byte
            == INTERRUPT,
        Key::Nothing => false,
        Key::Ended => true,
    }
}

/// What a viewer does about a key.
pub open spec fn next_move(freeze: bool, key: Key) -> Move {
    if leaves(key) {
        Move::Leave
    } else if key == Key::Nothing && !freeze {
        Move::Fetch
    } else {
        Move::Wait
    }
}

/// A view that was frozen asks for no window, whatever key comes, and so stays as it is.
pub proof fn law_a_frozen_window_stays_as_it_was(key: Key)
    ensures
        next_move(true, key) != Move::Fetch,
{
}

/// A view that was not frozen follows the process for as long as no key comes.
pub proof fn law_a_shown_window_follows_the_process()
    ensures
        next_move(false, Key::Nothing) == Move::Fetch,
{
}

/// The reader is let go by `q` in either case, by escape, by an interrupt and by the end of
/// what keys come from, frozen or not, and by nothing else.
pub proof fn law_a_window_waits_for_the_reader(freeze: bool, key: Key)
    ensures
        next_move(freeze, key) == Move::Leave <==> key == Key::Ended || key == Key::Pressed(0x71)
            || key == Key::Pressed(0x51) || key == Key::Pressed(0x1b) || key == Key::Pressed(0x03),
{
}

/// Whether a terminal that shows `shown` is to be drawn again for the window `next`.
pub open spec fn draws(shown: Seq<u8>, next: Seq<u8>) -> bool {
    next != shown
}

/// What a terminal shows once these windows were fetched, the first one having been drawn.
pub open spec fn shown_after(first: Seq<u8>, fetched: Seq<Seq<u8>>) -> Seq<u8> {
    if fetched.len() == 0 {
        first
    } else {
        fetched.last()
    }
}

/// The frames that are drawn while these windows are fetched, the first one drawn at once.
pub open spec fn frames(first: Seq<u8>, fetched: Seq<Seq<u8>>) -> Seq<Seq<u8>>
    decreases fetched.len(),
{
    if fetched.len() == 0 {
        seq![first]
    } else {
        let before = fetched.drop_last();
        if draws(shown_after(first, before), fetched.last()) {
            frames(first, before).push(fetched.last())
        } else {
            frames(first, before)
        }
    }
}

/// The frames of a whole viewing are the windows with each repeat left out: they begin with the
/// first window and close with the last, and no two in a row are the same.
pub proof fn law_a_viewing_draws_every_change_once(first: Seq<u8>, fetched: Seq<Seq<u8>>)
    ensures
        frames(first, fetched).len() > 0,
        frames(first, fetched)[0] == first,
        frames(first, fetched).last() == shown_after(first, fetched),
        forall|i: int|
            0 <= i < frames(first, fetched).len() - 1 ==> (#[trigger] frames(first, fetched)[i])
                != frames(first, fetched)[i + 1],
    decreases fetched.len(),
{
    if fetched.len() > 0 {
        law_a_viewing_draws_every_change_once(first, fetched.drop_last());
    }
}

/// A window held on a terminal: what it shows, and whether it stays that way.
#[derive(Debug)]
pub struct Viewer {
    shown: Vec<u8>,
    freeze: bool,
}

impl Viewer {
    /// What the terminal shows.
    pub closed spec fn shows(&self) -> Seq<u8> {
        self.shown@
    }

    /// Whether it stays that way.
    pub closed spec fn frozen(&self) -> bool {
        self.freeze
    }

    /// Holds a window that shows these contents.
    pub fn new(shown: Vec<u8>, freeze: bool) -> (viewer: Viewer)
        ensures
            viewer.shows() == shown@,
            viewer.frozen() == freeze,
    {
        Viewer { shown, freeze }
    }

    /// What is to be on the terminal.
    pub fn contents(&self) -> (contents: &Vec<u8>)
        ensures
            contents@ == self.shows(),
    {
        &self.shown
    }

    /// Tells what to do about a key.
    pub fn key(&self, key: Key) -> (next: Move)
        ensures
            next == next_move(self.frozen(), key),
    {
        match key {
            Key::Pressed(byte) => if byte == 'q' as u8 || byte == 'Q' as u8 || byte == ESCAPE || byte
                == INTERRUPT {
                Move::Leave
            } else {
                Move::Wait
            },
            Key::Ended => Move::Leave,
            Key::Nothing => if self.freeze {
                Move::Wait
            } else {
                Move::Fetch
            },
        }
    }

    /// Takes the window that was fetched, and tells whether it has to be drawn.
    pub fn fetched(&mut self, next: Vec<u8>) -> (draw: bool)
        ensures
            final(self).shows() == next@,
            final(self).frozen() == old(self).frozen(),
            draw == draws(old(self).shows(), next@),
    {
        if text::same_bytes(&next, &self.shown) {
            return false;
        }
        self.shown = next;
        true
    }
}

/// Tells whether the window is held on a terminal, rather than written once: only where
/// there is one to write to and one to take keys from.
pub fn held(output_is_terminal: bool, input_is_terminal: bool) -> (held: bool)
    ensures
        held == (output_is_terminal && input_is_terminal),
{
    output_is_terminal && input_is_terminal
}

/// The bytes that give a view a screen of its own.
pub open spec fn alternate_screen_on() -> Seq<u8> {
    seq![ESCAPE, '[' as u8, '?' as u8, '1' as u8, '0' as u8, '4' as u8, '9' as u8, 'h' as u8]
}

/// The bytes that give the screen back.
pub open spec fn alternate_screen_off() -> Seq<u8> {
    seq![ESCAPE, '[' as u8, '?' as u8, '1' as u8, '0' as u8, '4' as u8, '9' as u8, 'l' as u8]
}

/// The bytes that bring a hidden cursor back.
pub open spec fn show_cursor() -> Seq<u8> {
    seq![ESCAPE, '[' as u8, '?' as u8, '2' as u8, '5' as u8, 'h' as u8]
}

/// What is written before a window is held on a terminal.
pub fn entering() -> (bytes: Vec<u8>)
    ensures
        bytes@ == alternate_screen_on(),
{
    vec![ESCAPE, '[' as u8, '?' as u8, '1' as u8, '0' as u8, '4' as u8, '9' as u8, 'h' as u8]
}

/// What is written once the reader was let go: the terminal gets back the screen that it
/// had, and its cursor.
pub fn leaving() -> (bytes: Vec<u8>)
    ensures
        bytes@ == alternate_screen_off() + show_cursor(),
{
    let bytes = vec![
        ESCAPE,
        '[' as u8,
        '?' as u8,
        '1' as u8,
        '0' as u8,
        '4' as u8,
        '9' as u8,
        'l' as u8,
        ESCAPE,
        '[' as u8,
        '?' as u8,
        '2' as u8,
        '5' as u8,
        'h' as u8,
    ];
    assert(bytes@ =~= alternate_screen_off() + show_cursor());
    bytes
}

/// The window is asked for again exactly where no key came and the view was not frozen.
pub proof fn law_only_an_idle_view_that_follows_asks_again(freeze: bool, key: Key)
    ensures
        next_move(freeze, key) == Move::Fetch <==> !freeze && key == Key::Nothing,
        leaves(key) <==> next_move(freeze, key) == Move::Leave,
{
}

/// A window is drawn exactly where it differs from what is shown.
pub proof fn law_only_a_change_is_drawn(shown: Seq<u8>, next: Seq<u8>)
    ensures
        draws(shown, next) <==> shown != next,
{
}

/// A view takes the other screen of the terminal and gives the first one back, with its cursor.
pub proof fn law_a_view_gives_back_what_it_took()
    ensures
        alternate_screen_on() == seq![0x1bu8, 0x5b, 0x3f, 0x31, 0x30, 0x34, 0x39, 0x68],
        alternate_screen_off() == alternate_screen_on().drop_last().push(0x6c),
        show_cursor() == seq![0x1bu8, 0x5b, 0x3f, 0x32, 0x35, 0x68],
{
    assert(alternate_screen_off() =~= alternate_screen_on().drop_last().push(0x6c));
}

} // verus!
