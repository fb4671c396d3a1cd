use vstd::prelude::*;

verus! {

/// Why a quote could not be had: the request or the decoding of its answer
/// failed.
#[derive(Debug, Clone, Copy, PartialEq, Eq, Structural)]
pub enum Error {
    APIError,
}

/// The part of the quote service's answer that is shown.
#[derive(Debug)]
pub struct RandomQuoteApiResponse {
    pub content: String,
}

impl Clone for RandomQuoteApiResponse {
    fn clone(&self) -> (r: RandomQuoteApiResponse)
        ensures
            r.content@ == self.content@,
    {
        RandomQuoteApiResponse { content: self.content.clone() }
    }
}

#[derive(Debug)]
pub enum Message {
    GetRandomQuote,
    GetRandomQuoteDone(Result<RandomQuoteApiResponse, Error>),
}

impl Clone for Message {
    fn clone(&self) -> (r: Message)
        ensures
            match (*self, r) {
                (Message::GetRandomQuote, Message::GetRandomQuote) => true,
                (
                    Message::GetRandomQuoteDone(Ok(a)),
                    Message::GetRandomQuoteDone(Ok(b)),
                ) => b.content@ == a.content@,
                (Message::GetRandomQuoteDone(Err(a)), Message::GetRandomQuoteDone(Err(b))) => a
                    == b,
                _ => false,
            },
    {
        match self {
            Message::GetRandomQuote => Message::GetRandomQuote,
            Message::GetRandomQuoteDone(Ok(response)) => Message::GetRandomQuoteDone(
                Ok(response.clone()),
            ),
            Message::GetRandomQuoteDone(Err(error)) => Message::GetRandomQuoteDone(Err(*error)),
        }
    }
}

/// Work for the host: ask the quote service for a random quote, and hand
/// back its answer as `Message::GetRandomQuoteDone`.
#[derive(Debug, Clone, Copy, PartialEq, Eq, Structural)]
pub enum Task {
    FetchRandomQuote,
}

/// A window that shows the last quote fetched.
pub struct HelloWorld {
    pub quote: String,
}

impl HelloWorld {
    /// No quote yet: three question marks stand in its place.
    pub fn new() -> (r: HelloWorld)
        ensures
            r.quote@ == "???"@,
    {
        HelloWorld { quote: "???".to_owned() }
    }

    pub fn title(&self) -> (r: String)
        ensures
            r@ == "Basic State 3"@,
    {
        "Basic State 3".to_owned()
    }

    /// A request starts a fetch and leaves the quote as it is; an answer
    /// replaces the quote with its content, and a failure is ignored.
    pub fn update(&mut self, message: Message) -> (r: Option<Task>)
        ensures
            match message {
                Message::GetRandomQuote => {
                    &&& r == Some(Task::FetchRandomQuote)
                    &&& final(self).quote@ == old(self).quote@
                },
                Message::GetRandomQuoteDone(Ok(response)) => {
                    &&& r is None
                    &&& final(self).quote@ == response.content@
                },
                Message::GetRandomQuoteDone(Err(_)) => {
                    &&& r is None
                    &&& final(self).quote@ == old(self).quote@
                },
            },
    {
        match message {
            Message::GetRandomQuote => Some(Task::FetchRandomQuote),
            Message::GetRandomQuoteDone(res) => {
                match res {
                    Ok(random_quote_api_response) => {
                        self.quote = random_quote_api_response.content;
                    },
                    Err(_) => {},
                }
                None
            },
        }
    }
}

} // verus!
