use vstd::prelude::*;

verus! {

#[derive(Debug, Clone, Copy, PartialEq, Eq, Structural)]
pub enum Message {
    Pressed,
}

/// A window with one button, drawn in a style of its own within the stock theme.
pub struct HelloWorld {}

impl HelloWorld {
    pub fn new() -> (r: HelloWorld) {
        HelloWorld {  }
    }

    pub fn title(&self) -> (r: String)
        ensures
            r@ == "Styling 3"@,
    {
        "Styling 3".to_owned()
    }

    /// Pressing the button changes nothing.
    pub fn update(&mut self, _message: Message) {
    }
}

} // verus!
