use vstd::prelude::*;

verus! {

/// The greeting program reacts to nothing: no message can be made.
pub type Message = core::convert::Infallible;

/// A window that says hello.
pub struct HelloWorld {}

impl HelloWorld {
    pub fn new() -> (r: HelloWorld) {
        HelloWorld {  }
    }

    pub fn title(&self) -> (r: String)
        ensures
            r@ == "Hello World!"@,
    {
        "Hello World!".to_owned()
    }

    /// No message exists, so nothing ever changes.
    pub fn update(&mut self, _message: Message) {
    }
}

} // verus!
