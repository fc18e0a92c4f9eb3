use vstd::prelude::*;
use crate::fetch::{FetchClient, FetchError};
use crate::provider::Provider;
use crate::shell::ShellState;

verus! {

/// A request URL carries the percent-encoded place name whole, right after
/// `base?query_param=`.
pub proof fn lemma_url_contains_query(p: Provider, query: Seq<char>, key: Seq<char>)
    ensures
        ({
            let url = p.url_spec(query, key);
            let enc = Provider::encoded_query(query);
            let off = p.query_offset();
            off + enc.len() <= url.len() && url.subrange(off, off + enc.len()) == enc
        }),
{
    let url = p.url_spec(query, key);
    let enc = Provider::encoded_query(query);
    let off = p.query_offset();
    let head = p.base_url@ + seq!['?'] + p.query_param@ + seq!['='];
    let tail = seq!['&'] + p.key_param@ + seq!['='] + key + p.units_suffix();
    assert(url =~= head + enc + tail);
    assert(head.len() == off);
    assert(url.subrange(off, off + enc.len()) =~= enc);
}

/// Submitting with the search field at `q`, when no fetch is in flight,
/// starts exactly one fetch, whose URL carries `q` percent-encoded; looking
/// again starts no other.
pub proof fn lemma_submit_starts_one_fetch<R>(s: ShellState<R>, q: Seq<char>)
    requires
        !s.fetching,
    ensures
        ({
            let (s1, call) = s.typed(q).submitted().observed();
            let url = s.client.url_spec(q);
            let enc = Provider::encoded_query(q);
            let off = s.client.provider_spec().query_offset();
            &&& call == Some(url)
            &&& url.subrange(off, off + enc.len()) == enc
            &&& s1.fetching
            &&& !s1.submit_requested
            &&& s1.observed() == (s1, None::<Seq<char>>)
        }),
{
    lemma_url_contains_query(s.client.provider_spec(), q, s.client.key_spec());
}

/// While a fetch is in flight no other starts, whatever is submitted; once
/// it settles, the waiting submit starts one more fetch, for the query as it
/// then stands, and no third.
pub proof fn lemma_submit_while_fetching_waits<R>(
    s: ShellState<R>,
    outcome: Result<R, FetchError>,
)
    requires
        s.fetching,
    ensures
        s.observed() == (s, None::<Seq<char>>),
        s.submitted().observed() == (s.submitted(), None::<Seq<char>>),
        ({
            let (s1, call) = s.submitted().settled(outcome).observed();
            &&& call == Some(s.client.url_spec(s.query))
            &&& s1.observed() == (s1, None::<Seq<char>>)
        }),
{
}

/// A failed fetch leaves the record, the ready flag and so what the view
/// shows as they were.
pub proof fn lemma_failed_fetch_keeps_view<R>(s: ShellState<R>, e: FetchError)
    ensures
        s.settled(Err(e)).record == s.record,
        s.settled(Err(e)).data_ready == s.data_ready,
        s.settled(Err(e)).shown() == s.shown(),
        !s.settled(Err(e)).fetching,
{
}

/// A successful fetch makes the view show the new record, record and ready
/// flag changing in one step.
pub proof fn lemma_fetched_record_is_shown<R>(s: ShellState<R>, record: R)
    ensures
        s.settled(Ok(record)).shown() == Some(record),
        !s.settled(Ok(record)).fetching,
{
}

/// Before any submit the data is not ready, the view shows nothing, the
/// record is the placeholder, and no fetch starts.
pub proof fn lemma_initial_shows_nothing<R>(client: FetchClient, placeholder: R)
    ensures
        !ShellState::initial(client, placeholder).data_ready,
        ShellState::initial(client, placeholder).shown() is None,
        ShellState::initial(client, placeholder).record == placeholder,
        ShellState::initial(client, placeholder).observed().1 is None,
{
}

} // verus!
