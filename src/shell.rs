use vstd::prelude::*;
use crate::fetch::{FetchClient, FetchError};

verus! {

/// Everything the widget holds between two events.
pub struct ShellState<R> {
    /// The literal contents of the search field.
    pub query: Seq<char>,
    /// A submit was asked for and no fetch has been started for it yet.
    pub submit_requested: bool,
    /// A request is in flight.
    pub fetching: bool,
    /// `record` is the answer of a completed fetch, not the placeholder.
    pub data_ready: bool,
    pub record: R,
    pub client: FetchClient,
}

impl<R> ShellState<R> {
    /// Before any event: an empty search field, nothing requested or in
    /// flight, and the placeholder record, not ready.
    pub open spec fn initial(client: FetchClient, placeholder: R) -> Self {
        ShellState {
            query: Seq::empty(),
            submit_requested: false,
            fetching: false,
            data_ready: false,
            record: placeholder,
            client,
        }
    }

    /// The user changed the search field to `text`.
    pub open spec fn typed(self, text: Seq<char>) -> Self {
        ShellState { query: text, ..self }
    }

    /// The user clicked submit. While a fetch is in flight the request waits.
    pub open spec fn submitted(self) -> Self {
        ShellState { submit_requested: true, ..self }
    }

    /// The controller looks at the state: a waiting request with nothing in
    /// flight starts one fetch, for the query as it stands now.
    pub open spec fn observed(self) -> (Self, Option<Seq<char>>) {
        if self.submit_requested && !self.fetching {
            (
                ShellState { submit_requested: false, fetching: true, ..self },
                Some(self.client.url_spec(self.query)),
            )
        } else {
            (self, None)
        }
    }

    /// The fetch in flight ended with `outcome`. A record replaces the old one
    /// and becomes ready in the same step; a failure changes neither.
    pub open spec fn settled(self, outcome: Result<R, FetchError>) -> Self {
        match outcome {
            Ok(record) => ShellState { fetching: false, data_ready: true, record, ..self },
            Err(_) => ShellState { fetching: false, ..self },
        }
    }

    /// What the weather view shows: the record once data is ready, else nothing.
    pub open spec fn shown(self) -> Option<R> {
        if self.data_ready {
            Some(self.record)
        } else {
            None
        }
    }
}

/// The URL of a request, as characters.
pub open spec fn call_view(call: Option<String>) -> Option<Seq<char>> {
    match call {
        Some(url) => Some(url@),
        None => None,
    }
}

/// The widget's state owner: search text, submission flags and the current record.
pub struct AppShell<R> {
    query: String,
    submit_requested: bool,
    fetching: bool,
    data_ready: bool,
    record: R,
    client: FetchClient,
}

impl<R> View for AppShell<R> {
    type V = ShellState<R>;

    closed spec fn view(&self) -> ShellState<R> {
        ShellState {
            query: self.query@,
            submit_requested: self.submit_requested,
            fetching: self.fetching,
            data_ready: self.data_ready,
            record: self.record,
            client: self.client,
        }
    }
}

impl<R> AppShell<R> {
    pub fn new(client: FetchClient, placeholder: R) -> (r: Self)
        ensures
            r@ == ShellState::initial(client, placeholder),
    {
        let r = AppShell {
            query: String::new(),
            submit_requested: false,
            fetching: false,
            data_ready: false,
            record: placeholder,
            client,
        };
        assert(r@.query =~= Seq::<char>::empty());
        r
    }

    /// The search field now reads `text`.
    pub fn set_query(&mut self, text: String)
        ensures
            final(self)@ == old(self)@.typed(text@),
    {
        self.query = text;
    }

    /// The submit control was clicked.
    pub fn submit(&mut self)
        ensures
            final(self)@ == old(self)@.submitted(),
    {
        self.submit_requested = true;
    }

    /// Runs the controller's step: returns the URL of the one fetch to start,
    /// if a submit is waiting and no fetch is in flight.
    pub fn observe(&mut self) -> (call: Option<String>)
        ensures
            final(self)@ == old(self)@.observed().0,
            call_view(call) == old(self)@.observed().1,
    {
        if self.submit_requested && !self.fetching {
            self.submit_requested = false;
            self.fetching = true;
            Some(self.client.url_for(self.query.as_str()))
        } else {
            None
        }
    }

    /// Takes the outcome of the fetch in flight.
    pub fn settle(&mut self, outcome: Result<R, FetchError>)
        requires
            old(self)@.fetching,
        ensures
            final(self)@ == old(self)@.settled(outcome),
    {
        self.fetching = false;
        match outcome {
            Ok(record) => {
                self.record = record;
                self.data_ready = true;
            },
            Err(_) => {},
        }
    }

    /// The record for the weather view, once data is ready.
    pub fn shown_record(&self) -> (r: Option<&R>)
        ensures
            match r {
                Some(x) => self@.shown() == Some(*x),
                None => self@.shown() is None,
            },
    {
        if self.data_ready {
            Some(&self.record)
        } else {
            None
        }
    }

    pub fn query(&self) -> (r: &str)
        ensures
            r@ == self@.query,
    {
        self.query.as_str()
    }

    pub fn is_submit_requested(&self) -> (r: bool)
        ensures
            r == self@.submit_requested,
    {
        self.submit_requested
    }

    pub fn is_fetching(&self) -> (r: bool)
        ensures
            r == self@.fetching,
    {
        self.fetching
    }

    pub fn is_data_ready(&self) -> (r: bool)
        ensures
            r == self@.data_ready,
    {
        self.data_ready
    }

    pub fn record(&self) -> (r: &R)
        ensures
            *r == self@.record,
    {
        &self.record
    }

    pub fn client(&self) -> (r: &FetchClient)
        ensures
            *r == self@.client,
    {
        &self.client
    }
}

} // verus!
