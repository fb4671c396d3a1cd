use vstd::prelude::*;
use crate::timestamp::{display_text, Timestamp};

verus! {

#[derive(Debug, Clone, Copy)]
pub enum Message {
    UpdateTime,
}

/// A clock that shows the time at which it was last asked to update.
pub struct HelloWorld {
    pub current_time: Timestamp,
}

impl HelloWorld {
    pub open spec fn wf(&self) -> bool {
        self.current_time.wf()
    }

    /// A clock showing the time now.
    pub fn new() -> (r: HelloWorld)
        ensures
            r.wf(),
    {
        HelloWorld::new_at(Timestamp::now())
    }

    /// `new`, with the time now given.
    pub fn new_at(now: Timestamp) -> (r: HelloWorld)
        ensures
            r.current_time == now,
    {
        HelloWorld { current_time: now }
    }

    pub fn title(&self) -> (r: String)
        ensures
            r@ == "Basic State 1"@,
    {
        "Basic State 1".to_owned()
    }

    /// Reads the clock and moves the shown time to it.
    pub fn update(&mut self, message: Message)
        ensures
            final(self).wf(),
    {
        match message {
            Message::UpdateTime => {
                let now = Timestamp::now();
                self.update_at(message, now);
            },
        }
    }

    /// `update`, with the time now given.
    pub fn update_at(&mut self, message: Message, now: Timestamp)
        ensures
            match message {
                Message::UpdateTime => final(self).current_time == now,
            },
    {
        match message {
            Message::UpdateTime => {
                self.current_time = now;
            },
        }
    }

    /// The shown time, as `YYYY-MM-DD hh:mm:ss.mmm`.
    pub fn timestamp_text(&self) -> (r: String)
        requires
            self.wf(),
        ensures
            r@ == display_text(self.current_time),
    {
        self.current_time.to_display_string()
    }
}

} // verus!
