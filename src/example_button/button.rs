use vstd::prelude::*;

verus! {

#[allow(non_camel_case_types)]
#[derive(Debug, Clone, Copy, PartialEq, Eq, Structural)]
pub enum Message {
    foo,
}

/// Work for the host: open one more window of this program, and print
/// `Hello World!`.
#[derive(Debug, Clone, Copy, PartialEq, Eq, Structural)]
pub enum Task {
    LaunchAnother,
}

/// A window with one button, which opens another such window.
pub struct HelloWorld {}

impl HelloWorld {
    pub fn new() -> (r: HelloWorld) {
        HelloWorld {  }
    }

    pub fn title(&self) -> (r: String)
        ensures
            r@ == "Hello World!"@,
    {
        "Hello World!".to_owned()
    }

    pub fn update(&mut self, message: Message) -> (r: Task)
        ensures
            r == Task::LaunchAnother,
    {
        match message {
            Message::foo => Task::LaunchAnother,
        }
    }
}

} // verus!
