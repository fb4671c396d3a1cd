use vstd::prelude::*;
use crate::timestamp::{display_text, Timestamp};

verus! {

/// How often a running clock ticks, in milliseconds: about sixty times a
/// second.
pub const TICK_MILLIS: u64 = 17;

#[derive(Debug, Clone, Copy)]
pub enum Message {
    UpdateTime,
    TogglePauseTimer,
}

/// A clock that ticks on its own until it is paused.
pub struct HelloWorld {
    pub current_time: Timestamp,
    pub is_timer_paused: bool,
}

impl HelloWorld {
    pub open spec fn wf(&self) -> bool {
        self.current_time.wf()
    }

    /// A running clock showing the time now.
    pub fn new() -> (r: HelloWorld)
        ensures
            r.wf(),
            !r.is_timer_paused,
    {
        HelloWorld::new_at(Timestamp::now())
    }

    /// `new`, with the time now given.
    pub fn new_at(now: Timestamp) -> (r: HelloWorld)
        ensures
            r.current_time == now,
            !r.is_timer_paused,
    {
        HelloWorld { current_time: now, is_timer_paused: false }
    }

    pub fn title(&self) -> (r: String)
        ensures
            r@ == "Basic State 2"@,
    {
        "Basic State 2".to_owned()
    }

    /// A tick reads the clock and moves the shown time to it; a toggle pauses
    /// a running clock and resumes a paused one.
    pub fn update(&mut self, message: Message)
        ensures
            match message {
                Message::UpdateTime => {
                    &&& final(self).current_time.wf()
                    &&& final(self).is_timer_paused == old(self).is_timer_paused
                },
                Message::TogglePauseTimer => {
                    &&& final(self).current_time == old(self).current_time
                    &&& final(self).is_timer_paused == !old(self).is_timer_paused
                },
            },
    {
        match message {
            Message::UpdateTime => {
                let now = Timestamp::now();
                self.update_at(message, now);
            },
            Message::TogglePauseTimer => {
                self.update_at(message, self.current_time);
            },
        }
    }

    /// `update`, with the time now given.
    pub fn update_at(&mut self, message: Message, now: Timestamp)
        ensures
            match message {
                Message::UpdateTime => {
                    &&& final(self).current_time == now
                    &&& final(self).is_timer_paused == old(self).is_timer_paused
                },
                Message::TogglePauseTimer => {
                    &&& final(self).current_time == old(self).current_time
                    &&& final(self).is_timer_paused == !old(self).is_timer_paused
                },
            },
    {
        match message {
            Message::UpdateTime => {
                self.current_time = now;
            },
            Message::TogglePauseTimer => {
                self.is_timer_paused = !self.is_timer_paused;
            },
        }
    }

    /// The period of the tick that drives the clock, in milliseconds; none
    /// while the clock is paused.
    pub fn subscription(&self) -> (r: Option<u64>)
        ensures
            r == (if self.is_timer_paused {
                None
            } else {
                Some(TICK_MILLIS)
            }),
    {
        if self.is_timer_paused {
            return None;
        }
        Some(TICK_MILLIS)
    }

    /// The shown time, as `YYYY-MM-DD hh:mm:ss.mmm`.
    pub fn timestamp_text(&self) -> (r: String)
        requires
            self.wf(),
        ensures
            r@ == display_text(self.current_time),
    {
        self.current_time.to_display_string()
    }
}

} // verus!
