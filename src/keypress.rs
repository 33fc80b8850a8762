//! The keypress task: drains the scancode stream, decodes scancodes with
//! `pc_keyboard`, and collects the characters typed.

use crate::keyboard::{EventPoll, ScancodeStream};
use crate::task::{Task, TaskPoll, WakeHandle};
use pc_keyboard::layouts::Us104Key;
use pc_keyboard::{DecodedKey, HandleControl, KeyEvent, Keyboard, ScancodeSet1};
use vstd::prelude::*;

verus! {

#[verifier::external_type_specification]
#[verifier::external_body]
pub struct ExKeyEvent(KeyEvent);

/// A `pc_keyboard` decoder for scancode set 1 with the US 104-key layout:
/// the state of a partly received scancode sequence and of the modifier
/// keys. Only the wrappers below touch it.
#[verifier::external_body]
pub struct KeyDecoder {
    keyboard: Keyboard<Us104Key, ScancodeSet1>,
}

/// A decoded key press: a character, or a key without one.
#[derive(Clone, Copy, Debug, PartialEq, Eq, Structural)]
pub enum Key {
    Unicode(char),
    Raw,
}

/// The bytes fed to a decoder with `add_byte` since it was made.
pub uninterp spec fn decoder_bytes(d: KeyDecoder) -> Seq<u8>;

/// Whether the decoder's modifier state is what processing, in order, every
/// key event yielded for `decoder_bytes(d)` leaves.
pub uninterp spec fn decoder_settled(d: KeyDecoder) -> bool;

/// Whether the decoder's modifier state is what processing, in order, every
/// key event yielded for `decoder_bytes(d)` but the one its last byte yielded
/// leaves.
pub uninterp spec fn decoder_pending(d: KeyDecoder) -> bool;

/// The key event (if any) that the last of `bytes` completes, when `bytes`
/// are fed in order to a fresh decoder (a decoding error yields none).
pub uninterp spec fn event_after(bytes: Seq<u8>) -> Option<KeyEvent>;

/// The key that the event completed by the last of `bytes` decodes to, on a
/// fresh decoder that has processed every earlier key event of `bytes`.
pub uninterp spec fn key_after(bytes: Seq<u8>) -> Option<Key>;

/// The characters typed at the last of `bytes`: the key's character, when
/// that byte completes a key event that decodes to one.
pub open spec fn typed_by(bytes: Seq<u8>) -> Seq<char> {
    match key_after(bytes) {
        Some(Key::Unicode(c)) => if event_after(bytes) is Some {
            seq![c]
        } else {
            Seq::empty()
        },
        _ => Seq::empty(),
    }
}

/// The characters typed while `more` is fed to a decoder that has already
/// been fed `history`, in order.
pub open spec fn typed_after(history: Seq<u8>, more: Seq<u8>) -> Seq<char>
    decreases more.len(),
{
    if more.len() == 0 {
        Seq::empty()
    } else {
        typed_after(history, more.drop_last()) + typed_by(history + more)
    }
}

/// Relies on `Keyboard::new`: a scancode set 1 decoder with the US 104-key
/// layout that passes Ctrl combinations through as letters, with nothing
/// fed yet.
#[verifier::external_body]
fn us104_keyboard() -> (d: KeyDecoder)
    ensures
        decoder_bytes(d) == Seq::<u8>::empty(),
        decoder_settled(d),
{
    KeyDecoder { keyboard: Keyboard::new(ScancodeSet1::new(), Us104Key, HandleControl::Ignore) }
}

/// Relies on `Keyboard::add_byte`: feeds one scancode to the scancode-set
/// state machine, whose state depends on the bytes fed alone; it yields a
/// key event once a whole sequence has arrived (an error yields none). The
/// modifier state is not touched.
#[verifier::external_body]
fn keyboard_add_byte(kb: &mut KeyDecoder, byte: u8) -> (r: Option<KeyEvent>)
    ensures
        decoder_bytes(*final(kb)) == decoder_bytes(*old(kb)).push(byte),
        r == event_after(decoder_bytes(*final(kb))),
        decoder_settled(*old(kb)) && r is None ==> decoder_settled(*final(kb)),
        decoder_settled(*old(kb)) && r is Some ==> decoder_pending(*final(kb)),
{
    match kb.keyboard.add_byte(byte) {
        Ok(ev) => ev,
        Err(_) => None,
    }
}

/// Relies on `Keyboard::process_keyevent`: turns a key event into a key,
/// following and updating the modifier state the decoder keeps.
#[verifier::external_body]
fn keyboard_process_keyevent(kb: &mut KeyDecoder, ev: KeyEvent) -> (r: Option<Key>)
    ensures
        decoder_bytes(*final(kb)) == decoder_bytes(*old(kb)),
        decoder_pending(*old(kb)) && event_after(decoder_bytes(*old(kb))) == Some(ev) ==> {
            &&& decoder_settled(*final(kb))
            &&& r == key_after(decoder_bytes(*old(kb)))
        },
{
    match kb.keyboard.process_keyevent(ev) {
        Some(DecodedKey::Unicode(c)) => Some(Key::Unicode(c)),
        Some(DecodedKey::RawKey(_)) => Some(Key::Raw),
        None => None,
    }
}

/// What the keypress task reads and writes: the keyboard's scancode stream
/// and the characters typed so far, waiting to be shown.
pub struct KeyInput {
    pub stream: ScancodeStream,
    pub typed: Vec<char>,
}

/// The task that turns keyboard scancodes into typed characters.
pub struct KeyPrinter {
    keyboard: KeyDecoder,
}

impl KeyPrinter {
    /// The scancodes decoded so far.
    pub closed spec fn fed(&self) -> Seq<u8> {
        decoder_bytes(self.keyboard)
    }

    /// Every key event decoded so far has been processed in order.
    pub closed spec fn wf(&self) -> bool {
        decoder_settled(self.keyboard)
    }

    /// A fresh decoder state.
    pub fn new() -> (p: KeyPrinter)
        ensures
            p.wf(),
            p.fed() == Seq::<u8>::empty(),
    {
        KeyPrinter { keyboard: us104_keyboard() }
    }

    /// Decodes one scancode; a completed key with a character is appended to
    /// `typed`.
    fn handle_scancode(&mut self, scancode: u8, typed: &mut Vec<char>)
        ensures
            final(self).fed() == old(self).fed().push(scancode),
            old(self).wf() ==> {
                &&& final(self).wf()
                &&& final(typed)@ == old(typed)@ + typed_by(final(self).fed())
            },
    {
        match keyboard_add_byte(&mut self.keyboard, scancode) {
            Some(ev) => {
                match keyboard_process_keyevent(&mut self.keyboard, ev) {
                    Some(Key::Unicode(c)) => {
                        typed.push(c);
                    },
                    _ => {},
                }
            },
            None => {},
        }
        proof {
            if old(self).wf() {
                assert(final(typed)@ =~= old(typed)@ + typed_by(self.fed()));
            }
        }
    }

    /// Runs until the stream is empty: every buffered scancode is consumed
    /// in order and decoded, the characters they type are appended to
    /// `typed` in order, and then the task's wake handle is registered and
    /// the task reports that it is still incomplete (the stream never ends).
    pub fn resume(&mut self, waker: &WakeHandle, input: &mut KeyInput) -> (r: TaskPoll)
        ensures
            r == TaskPoll::Pending,
            old(input).stream.wf() ==> final(input).stream.wf(),
            final(input).stream.capacity_spec() == old(input).stream.capacity_spec(),
            final(input).stream.state().events.len() == 0,
            final(input).stream.state().waiter == Some(*waker),
            final(self).fed() == old(self).fed() + old(input).stream.state().events,
            old(self).wf() ==> {
                &&& final(self).wf()
                &&& final(input).typed@ == old(input).typed@ + typed_after(
                    old(self).fed(),
                    old(input).stream.state().events,
                )
            },
    {
        let ghost drained = input.stream.state().events;
        let ghost f0 = self.fed();
        let ghost t0 = input.typed@;
        loop
            invariant
                old(input).stream.wf() ==> input.stream.wf(),
                input.stream.capacity_spec() == old(input).stream.capacity_spec(),
                drained == old(input).stream.state().events,
                f0 == old(self).fed(),
                t0 == old(input).typed@,
                input.stream.state().events.len() <= drained.len(),
                input.stream.state().events == drained.skip(
                    drained.len() - input.stream.state().events.len(),
                ),
                self.fed() == f0 + drained.take(
                    drained.len() - input.stream.state().events.len(),
                ),
                old(self).wf() ==> {
                    &&& self.wf()
                    &&& input.typed@ == t0 + typed_after(
                        f0,
                        drained.take(drained.len() - input.stream.state().events.len()),
                    )
                },
            decreases input.stream.state().events.len(),
        {
            let ghost k = drained.len() - input.stream.state().events.len();
            let ghost typed_before = input.typed@;
            match input.stream.poll_next(waker) {
                EventPoll::Ready(scancode) => {
                    proof {
                        assert(scancode == drained[k]);
                        assert(drained.take(k + 1) =~= drained.take(k).push(scancode));
                        assert(input.stream.state().events =~= drained.skip(k + 1));
                    }
                    self.handle_scancode(scancode, &mut input.typed);
                    proof {
                        assert(f0 + drained.take(k + 1) =~= (f0 + drained.take(k)).push(scancode));
                        assert(drained.take(k + 1).drop_last() =~= drained.take(k));
                        if old(self).wf() {
                            assert(input.typed@ =~= t0 + typed_after(f0, drained.take(k + 1)));
                        }
                    }
                },
                EventPoll::Pending => {
                    proof {
                        assert(k == drained.len());
                        assert(drained.take(k) =~= drained);
                    }
                    return TaskPoll::Pending;
                },
            }
        }
    }
}

impl Task<KeyInput> for KeyPrinter {
    fn poll(&mut self, waker: &WakeHandle, env: &mut KeyInput) -> TaskPoll {
        self.resume(waker, env)
    }
}

} // verus!
