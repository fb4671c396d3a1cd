use vstd::prelude::*;

verus! {

#[derive(Debug, Clone, PartialEq, Eq)]
pub enum Message {
    Open(String),
}

/// Work for the host.
#[derive(Debug, Clone, PartialEq, Eq)]
pub enum Task {
    /// Open the link in the user's browser.
    Open(String),
}

/// A page that shows what a container can do, with links to its documentation.
pub struct ContainerExample {}

impl ContainerExample {
    pub fn new() -> (r: ContainerExample) {
        ContainerExample {  }
    }

    pub fn title(&self) -> (r: String)
        ensures
            r@ == "Button Example"@,
    {
        "Button Example".to_owned()
    }

    /// A link asks the host to open it.
    pub fn update(&mut self, message: Message) -> (r: Task)
        ensures
            match message {
                Message::Open(url) => r matches Task::Open(u) && u@ == url@,
            },
    {
        match message {
            Message::Open(url) => Task::Open(url),
        }
    }
}

} // verus!
