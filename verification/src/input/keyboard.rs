use super::WindowEvent;
use vstd::prelude::*;

verus! {

/// The ASCII control characters: U+0000 to U+001F, and U+007F.
pub open spec fn is_ascii_control(c: char) -> bool {
    c as u32 <= 0x1F || c as u32 == 0x7F
}

/// `char::is_ascii_control` is true exactly for the ASCII control
/// characters, U+0000 to U+001F and U+007F.
pub assume_specification[ char::is_ascii_control ](c: &char) -> (b: bool)
    ensures
        b == is_ascii_control(*c),
;

/// `String::clear` removes all characters.
pub assume_specification[ String::clear ](s: &mut String)
    ensures
        final(s)@ == Seq::<char>::empty(),
;

/// `String::push` appends one character.
pub assume_specification[ String::push ](s: &mut String, c: char)
    ensures
        final(s)@ == old(s)@.push(c),
;

/// Collects the text typed during one frame.
pub struct Keyboard {
    typed_text: String,
}

impl View for Keyboard {
    type V = Seq<char>;

    /// The text typed since the last `update`.
    closed spec fn view(&self) -> Seq<char> {
        self.typed_text@
    }
}

impl Keyboard {
    pub fn new() -> (keyboard: Self)
        ensures
            keyboard@ == Seq::<char>::empty(),
    {
        Self { typed_text: String::new() }
    }

    /// The text to deliver to the handlers this frame, if any was typed.
    pub fn propagate_events(&self) -> (text: Option<&str>)
        ensures
            self@.len() == 0 ==> text is None,
            self@.len() > 0 ==> (text matches Some(typed) && typed@ == self@),
    {
        let typed = self.typed_text.as_str();
        if typed.unicode_len() != 0 {
            Some(typed)
        } else {
            None
        }
    }

    /// Forgets the text of the frame that ended.
    pub fn update(&mut self)
        ensures
            final(self)@ == Seq::<char>::empty(),
    {
        self.typed_text.clear();
    }

    /// Takes in one event. Returns true if the event was used: typed
    /// characters are, and all but control characters are kept.
    pub fn handle_event(&mut self, event: &WindowEvent) -> (used: bool)
        ensures
            used == (*event is ReceivedCharacter),
            final(self)@ == match *event {
                WindowEvent::ReceivedCharacter(c) if !is_ascii_control(c) => old(self)@.push(c),
                _ => old(self)@,
            },
    {
        match event {
            WindowEvent::ReceivedCharacter(c) => {
                if !c.is_ascii_control() {
                    self.typed_text.push(*c);
                }
                true
            },
            WindowEvent::Other => false,
        }
    }
}

} // verus!
