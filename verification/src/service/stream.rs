//! The listing protocol: the registry is read page by page, each page over a
//! connection leased for that read alone, and handed to a bounded channel
//! that the transport drains.
//!
//! A [`Session`] decides; it does no work itself. Whoever runs a listing
//! performs the [`Action`] that the session names, reports what came of it as
//! an [`Event`], and is told the next action, until the session closes.

use crate::config::Config;
use crate::controller::cliente::{cabe, deslocamento, lista, Janela};
use crate::erro::{status_de, Erro, Operacao, Status, StatusView};
use crate::model::cliente::{linhas_de, respostas, Cliente, ClienteView};
use crate::proto::{ClientePageResponse, ClienteResponseView};
use vstd::prelude::*;

verus! {

/// Number of pages that a stream buffers before its producer has to wait.
pub const CHANNEL_CAPACITY: usize = 128;

/// Why a listing ended before the end of the data.
#[derive(Clone, Copy, Debug, PartialEq, Eq, Structural)]
pub enum AbortReason {
    /// The pool gave no connection.
    PoolError,
    /// The store failed to read a page.
    StoreError,
    /// The consumer left. This is a normal ending and is reported to nobody.
    ConsumerGone,
}

/// Where a listing stands. The page in question is the session's cursor.
#[derive(Clone, Copy, Debug, PartialEq, Eq, Structural)]
pub enum State {
    /// The page at the cursor is being fetched: first a connection is leased,
    /// then, with `lease` set, the page is read over it.
    Fetching { lease: bool },
    /// The page at the cursor has been read, the lease has been returned, and
    /// the page is being handed to the channel.
    Emitting,
    /// The data ended. The stream closes cleanly.
    Done,
    /// The listing was given up.
    Aborted(AbortReason),
}

/// What came of the action that a session asked for.
#[derive(Debug, PartialEq, Eq)]
pub enum Event {
    /// The pool leased a connection.
    LeaseAcquired,
    /// The pool could lease none.
    PoolFailed,
    /// The store read the page; these are its rows. The lease is back in the
    /// pool.
    PageRead(Vec<Cliente>),
    /// The store failed to read the page. The lease is back in the pool.
    StoreFailed,
    /// The channel took the page.
    Sent,
    /// The channel is closed: the consumer is gone.
    Closed,
}

/// The mathematical content of an [`Event`].
pub enum EventView {
    LeaseAcquired,
    PoolFailed,
    PageRead(Seq<ClienteView>),
    StoreFailed,
    Sent,
    Closed,
}

impl View for Event {
    type V = EventView;

    open spec fn view(&self) -> EventView {
        match *self {
            Event::LeaseAcquired => EventView::LeaseAcquired,
            Event::PoolFailed => EventView::PoolFailed,
            Event::PageRead(v) => EventView::PageRead(linhas_de(v@)),
            Event::StoreFailed => EventView::StoreFailed,
            Event::Sent => EventView::Sent,
            Event::Closed => EventView::Closed,
        }
    }
}

/// What a session asks to be done next.
#[derive(Debug, PartialEq, Eq)]
pub enum Action {
    /// Lease a connection from the pool, waiting for one if need be.
    Acquire,
    /// Read the rows of this window over the leased connection, and return
    /// the lease as soon as the read has ended, whatever its outcome. The
    /// session sets no deadline: a read that never ends keeps its lease.
    Scan(Janela),
    /// Hand this page to the channel, waiting for room if it is full.
    Send(ClientePageResponse),
    /// Close the channel, after a last item that carries the status if there
    /// is one. Nothing is to be done after this.
    Close(Option<Status>),
}

/// The mathematical content of an [`Action`].
pub enum ActionView {
    Acquire,
    Scan(Janela),
    Send(Seq<ClienteResponseView>),
    Close(Option<StatusView>),
}

impl View for Action {
    type V = ActionView;

    open spec fn view(&self) -> ActionView {
        match *self {
            Action::Acquire => ActionView::Acquire,
            Action::Scan(j) => ActionView::Scan(j),
            Action::Send(p) => ActionView::Send(p@),
            Action::Close(Some(s)) => ActionView::Close(Some(s@)),
            Action::Close(None) => ActionView::Close(None),
        }
    }
}

/// The status that ends a stream when the pool gave no connection.
pub open spec fn pool_status() -> StatusView {
    status_de(Operacao::Lista, Erro::PoolExhausted)
}

/// The status that ends a stream when a page could not be read.
pub open spec fn store_status() -> StatusView {
    status_de(Operacao::Lista, Erro::ConnectionLost)
}

/// The mathematical content of a [`Session`].
pub struct SessionView {
    /// Where the listing stands.
    pub state: State,
    /// Number of pages that the channel has taken, which is also the index
    /// of the page being fetched or emitted.
    pub cursor: int,
    /// Number of rows asked for per page.
    pub page_size: int,
}

/// The window that a session with page size `page_size` scans for page
/// `cursor`.
pub open spec fn janela(cursor: int, page_size: int) -> Janela {
    Janela { offset: deslocamento(cursor, page_size) as i64, limit: page_size as i64 }
}

impl SessionView {
    /// The session of a listing that has just been asked for: it is about to
    /// fetch page 0 and holds no lease.
    pub open spec fn initial(page_size: int) -> SessionView {
        SessionView { state: State::Fetching { lease: false }, cursor: 0, page_size }
    }

    /// What holds of every session: the page size is positive, the cursor is
    /// not negative, and while the listing goes on the page at the cursor can
    /// be asked for.
    pub open spec fn valid(self) -> bool {
        &&& 1 <= self.page_size <= i64::MAX
        &&& 0 <= self.cursor <= i64::MAX
        &&& !self.terminal() ==> cabe(self.cursor, self.page_size)
    }

    /// The listing has ended, cleanly or not, and its channel is closed.
    pub open spec fn terminal(self) -> bool {
        self.state is Done || self.state is Aborted
    }

    /// The session has a connection on lease.
    pub open spec fn holds_lease(self) -> bool {
        self.state == (State::Fetching { lease: true })
    }

    /// The event is an outcome of the action that the session is waiting on.
    pub open spec fn awaits(self, e: EventView) -> bool {
        match self.state {
            State::Fetching { lease: false } => e is LeaseAcquired || e is PoolFailed,
            State::Fetching { lease: true } => e is PageRead || e is StoreFailed,
            State::Emitting => e is Sent || e is Closed,
            State::Done | State::Aborted(_) => false,
        }
    }

    /// The session after the event. An event that the session does not await
    /// changes nothing.
    ///
    /// The cursor moves when the channel has taken a page. If the page after
    /// that one cannot be asked for, because the number of rows before it no
    /// longer fits the database's offset, the listing is given up as if the
    /// store had failed to read it.
    pub open spec fn next(self, e: EventView) -> SessionView {
        if !self.awaits(e) {
            self
        } else {
            match e {
                EventView::LeaseAcquired => SessionView {
                    state: State::Fetching { lease: true },
                    ..self
                },
                EventView::PoolFailed => SessionView {
                    state: State::Aborted(AbortReason::PoolError),
                    ..self
                },
                EventView::PageRead(linhas) => if linhas.len() == 0 {
                    SessionView { state: State::Done, ..self }
                } else {
                    SessionView { state: State::Emitting, ..self }
                },
                EventView::StoreFailed => SessionView {
                    state: State::Aborted(AbortReason::StoreError),
                    ..self
                },
                EventView::Sent => if cabe(self.cursor + 1, self.page_size) {
                    SessionView {
                        state: State::Fetching { lease: false },
                        cursor: self.cursor + 1,
                        ..self
                    }
                } else {
                    SessionView {
                        state: State::Aborted(AbortReason::StoreError),
                        cursor: self.cursor + 1,
                        ..self
                    }
                },
                EventView::Closed => SessionView {
                    state: State::Aborted(AbortReason::ConsumerGone),
                    ..self
                },
            }
        }
    }

    /// The action that the session asks for on the event, or `None` if it
    /// does not await the event.
    pub open spec fn output(self, e: EventView) -> Option<ActionView> {
        if !self.awaits(e) {
            None
        } else {
            Some(
                match e {
                    EventView::LeaseAcquired => ActionView::Scan(
                        janela(self.cursor, self.page_size),
                    ),
                    EventView::PoolFailed => ActionView::Close(Some(pool_status())),
                    EventView::PageRead(linhas) => if linhas.len() == 0 {
                        ActionView::Close(None)
                    } else {
                        ActionView::Send(respostas(linhas))
                    },
                    EventView::StoreFailed => ActionView::Close(Some(store_status())),
                    EventView::Sent => if cabe(self.cursor + 1, self.page_size) {
                        ActionView::Acquire
                    } else {
                        ActionView::Close(Some(store_status()))
                    },
                    EventView::Closed => ActionView::Close(None),
                },
            )
        }
    }
}

/// The state of one listing in flight.
#[derive(Debug)]
pub struct Session {
    state: State,
    cursor: i64,
    page_size: i64,
}

impl View for Session {
    type V = SessionView;

    closed spec fn view(&self) -> SessionView {
        SessionView {
            state: self.state,
            cursor: self.cursor as int,
            page_size: self.page_size as int,
        }
    }
}

impl Session {
    #[verifier::type_invariant]
    spec fn inv(self) -> bool {
        self@.valid()
    }

    /// Starts a listing: the session, and the first thing to do, which is to
    /// lease a connection.
    pub fn new(config: &Config) -> (r: (Session, Action))
        ensures
            r.0@ == SessionView::initial(config@.page_size),
            r.0@.valid(),
            r.1@ == ActionView::Acquire,
    {
        let page_size = config.page_size();
        let s = Session { state: State::Fetching { lease: false }, cursor: 0, page_size };
        (s, Action::Acquire)
    }

    /// Where the listing stands.
    pub fn state(&self) -> (r: State)
        ensures
            r == self@.state,
    {
        self.state
    }

    /// Number of pages that the channel has taken so far.
    pub fn cursor(&self) -> (r: i64)
        ensures
            r == self@.cursor,
            r >= 0,
    {
        proof {
            use_type_invariant(self);
        }
        self.cursor
    }

    /// Number of rows asked for per page.
    pub fn page_size(&self) -> (r: i64)
        ensures
            r == self@.page_size,
            r >= 1,
    {
        proof {
            use_type_invariant(self);
        }
        self.page_size
    }

    /// Whether the listing has ended and its channel is closed.
    pub fn is_terminal(&self) -> (r: bool)
        ensures
            r == self@.terminal(),
    {
        match self.state {
            State::Done => true,
            State::Aborted(_) => true,
            _ => false,
        }
    }

    /// Whether the session has a connection on lease.
    pub fn holds_lease(&self) -> (r: bool)
        ensures
            r == self@.holds_lease(),
    {
        match self.state {
            State::Fetching { lease } => lease,
            _ => false,
        }
    }

    /// Takes in what came of the last action and says what to do next.
    ///
    /// Returns `None`, and leaves the session as it is, if the event is not
    /// an outcome of the action that the session is waiting on; after
    /// [`Action::Close`] that is every event.
    pub fn step(&mut self, evento: Event) -> (r: Option<Action>)
        ensures
            old(self)@.valid(),
            final(self)@.valid(),
            final(self)@ == old(self)@.next(evento@),
            match r {
                Some(a) => old(self)@.output(evento@) == Some(a@),
                None => old(self)@.output(evento@) is None,
            },
    {
        proof {
            use_type_invariant(&*self);
        }
        let cursor = self.cursor;
        let page_size = self.page_size;
        match self.state {
            State::Fetching { lease: false } => match evento {
                Event::LeaseAcquired => {
                    let j = lista(cursor, page_size).unwrap();
                    *self = Session { state: State::Fetching { lease: true }, cursor, page_size };
                    Some(Action::Scan(j))
                },
                Event::PoolFailed => {
                    *self = Session { state: State::Aborted(AbortReason::PoolError), cursor, page_size };
                    Some(Action::Close(Some(Status::de(Operacao::Lista, Erro::PoolExhausted))))
                },
                _ => None,
            },
            State::Fetching { lease: true } => match evento {
                Event::PageRead(linhas) => {
                    if linhas.len() == 0 {
                        *self = Session { state: State::Done, cursor, page_size };
                        Some(Action::Close(None))
                    } else {
                        *self = Session { state: State::Emitting, cursor, page_size };
                        Some(Action::Send(ClientePageResponse::de(&linhas)))
                    }
                },
                Event::StoreFailed => {
                    *self = Session { state: State::Aborted(AbortReason::StoreError), cursor, page_size };
                    Some(Action::Close(Some(Status::de(Operacao::Lista, Erro::ConnectionLost))))
                },
                _ => None,
            },
            State::Emitting => match evento {
                Event::Sent => {
                    assert(cursor < i64::MAX) by (nonlinear_arith)
                        requires
                            cursor * page_size + 1 <= i64::MAX,
                            page_size >= 1,
                            cursor >= 0,
                    ;
                    let seguinte: i64 = cursor + 1;
                    match lista(seguinte, page_size) {
                        Some(_) => {
                            *self = Session {
                                state: State::Fetching { lease: false },
                                cursor: seguinte,
                                page_size,
                            };
                            Some(Action::Acquire)
                        },
                        None => {
                            *self = Session {
                                state: State::Aborted(AbortReason::StoreError),
                                cursor: seguinte,
                                page_size,
                            };
                            Some(
                                Action::Close(
                                    Some(Status::de(Operacao::Lista, Erro::ConnectionLost)),
                                ),
                            )
                        },
                    }
                },
                Event::Closed => {
                    *self = Session { state: State::Aborted(AbortReason::ConsumerGone), cursor, page_size };
                    Some(Action::Close(None))
                },
                _ => None,
            },
            State::Done => None,
            State::Aborted(_) => None,
        }
    }
}

} // verus!
