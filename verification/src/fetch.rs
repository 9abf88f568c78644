use vstd::prelude::*;
use vstd::string::StringExecFns;

verus! {

/// The text of a decimal digit.
pub open spec fn digit_text(digit: nat) -> Seq<char> {
    if digit == 0 {
        "0"@
    } else if digit == 1 {
        "1"@
    } else if digit == 2 {
        "2"@
    } else if digit == 3 {
        "3"@
    } else if digit == 4 {
        "4"@
    } else if digit == 5 {
        "5"@
    } else if digit == 6 {
        "6"@
    } else if digit == 7 {
        "7"@
    } else if digit == 8 {
        "8"@
    } else {
        "9"@
    }
}

/// A number in decimal, without leading zeros.
pub open spec fn decimal(n: nat) -> Seq<char>
    decreases n,
{
    if n < 10 {
        digit_text(n)
    } else {
        decimal(n / 10) + digit_text(n % 10)
    }
}

/// The path of a listing page on the site: `/page/`, the page number in
/// decimal, and `/`.
pub open spec fn page_path_of(page: u16) -> Seq<char> {
    "/page/"@ + decimal(page as nat) + "/"@
}

fn digit_str(digit: u16) -> (text: &'static str)
    requires
        digit < 10,
    ensures
        text@ == digit_text(digit as nat),
{
    if digit == 0 {
        "0"
    } else if digit == 1 {
        "1"
    } else if digit == 2 {
        "2"
    } else if digit == 3 {
        "3"
    } else if digit == 4 {
        "4"
    } else if digit == 5 {
        "5"
    } else if digit == 6 {
        "6"
    } else if digit == 7 {
        "7"
    } else if digit == 8 {
        "8"
    } else {
        "9"
    }
}

fn push_decimal(text: &mut String, n: u16)
    ensures
        final(text)@ == old(text)@ + decimal(n as nat),
    decreases n,
{
    if n >= 10 {
        push_decimal(text, n / 10);
    }
    text.append(digit_str(n % 10));
    assert(text@ =~= old(text)@ + decimal(n as nat));
}

/// The path of a listing page on the site.
pub fn page_path(page: u16) -> (path: String)
    ensures
        path@ == page_path_of(page),
{
    let mut path = String::from_str("/page/");
    push_decimal(&mut path, page);
    path.append("/");
    path
}

/// What a fetch worker is told.
#[derive(Debug)]
pub enum FetchEvent {
    /// The page queue handed out a page number, or is closed and empty.
    Page(Option<u16>),
    /// The request ended: with the text of the page, or without one where
    /// the transport failed or the body was no text.
    Response(Option<String>),
    /// The page content was sent into the content queue, or the queue was
    /// gone.
    Sent,
}

/// What a fetch worker does next.
#[derive(Debug)]
pub enum FetchAction {
    /// Wait for the next page number.
    Receive,
    /// Request this path from the site.
    Request(String),
    /// Send this page content into the content queue.
    Send(String),
    /// Leave the loop.
    Exit,
}

/// What a [`FetchEvent`] stands for in contracts.
pub enum FetchEventView {
    Page(Option<u16>),
    Response(Option<Seq<char>>),
    Sent,
}

/// What a [`FetchAction`] stands for in contracts.
pub enum FetchActionView {
    Receive,
    Request(Seq<char>),
    Send(Seq<char>),
    Exit,
}

impl View for FetchEvent {
    type V = FetchEventView;

    open spec fn view(&self) -> FetchEventView {
        match self {
            FetchEvent::Page(page) => FetchEventView::Page(*page),
            FetchEvent::Response(Some(text)) => FetchEventView::Response(Some(text@)),
            FetchEvent::Response(None) => FetchEventView::Response(None),
            FetchEvent::Sent => FetchEventView::Sent,
        }
    }
}

impl View for FetchAction {
    type V = FetchActionView;

    open spec fn view(&self) -> FetchActionView {
        match self {
            FetchAction::Receive => FetchActionView::Receive,
            FetchAction::Request(path) => FetchActionView::Request(path@),
            FetchAction::Send(text) => FetchActionView::Send(text@),
            FetchAction::Exit => FetchActionView::Exit,
        }
    }
}

/// A fetch worker's next action: it requests each page that it receives,
/// forwards each content that it gets, passes over a page whose request
/// failed, and leaves when the page queue is closed and empty.
pub open spec fn fetch_step(event: FetchEventView) -> FetchActionView {
    match event {
        FetchEventView::Page(Some(page)) => FetchActionView::Request(page_path_of(page)),
        FetchEventView::Page(None) => FetchActionView::Exit,
        FetchEventView::Response(Some(text)) => FetchActionView::Send(text),
        FetchEventView::Response(None) => FetchActionView::Receive,
        FetchEventView::Sent => FetchActionView::Receive,
    }
}

/// Decides a fetch worker's next action from what it is told.
pub fn fetch_worker(event: FetchEvent) -> (action: FetchAction)
    ensures
        action@ == fetch_step(event@),
{
    match event {
        FetchEvent::Page(Some(page)) => FetchAction::Request(page_path(page)),
        FetchEvent::Page(None) => FetchAction::Exit,
        FetchEvent::Response(Some(text)) => FetchAction::Send(text),
        FetchEvent::Response(None) => FetchAction::Receive,
        FetchEvent::Sent => FetchAction::Receive,
    }
}

/// A fetch worker holds at most one page content, and takes no further page
/// number while it holds one: a content that it gets is the very next thing
/// that it sends, and it asks for a page number again only after that send
/// has been reported, or after a request that gave no content. How long a
/// send waits for room in the content queue is the queue's doing.
pub proof fn law_worker_sends_before_it_receives(event: FetchEventView)
    ensures
        fetch_step(event) is Receive <==> event is Sent || event == FetchEventView::Response(
            None,
        ),
        event matches FetchEventView::Response(Some(text)) ==> fetch_step(event)
            == FetchActionView::Send(text),
{
}

} // verus!
