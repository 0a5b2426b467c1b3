//! What holds of every listing, whatever the pool, the store and the consumer
//! do, and what a listing delivers when all three do their part.

use crate::controller::cliente::{cabe, deslocamento, Janela};
use crate::model::cliente::{respostas, ClienteView};
use crate::proto::ClienteResponseView;
use crate::service::stream::{janela, AbortReason, ActionView, EventView, SessionView, State};
use vstd::prelude::*;

verus! {

/// The session after a run of events, taken in order.
pub open spec fn run(s: SessionView, es: Seq<EventView>) -> SessionView
    decreases es.len(),
{
    if es.len() == 0 {
        s
    } else {
        run(s.next(es[0]), es.skip(1))
    }
}

/// The actions that the session asks for along a run of events, in order.
pub open spec fn actions(s: SessionView, es: Seq<EventView>) -> Seq<ActionView>
    decreases es.len(),
{
    if es.len() == 0 {
        Seq::empty()
    } else {
        let rest = actions(s.next(es[0]), es.skip(1));
        match s.output(es[0]) {
            Some(a) => seq![a] + rest,
            None => rest,
        }
    }
}

/// The windows that the session asks the store to scan along a run of events,
/// in order.
pub open spec fn scans(s: SessionView, es: Seq<EventView>) -> Seq<Janela>
    decreases es.len(),
{
    if es.len() == 0 {
        Seq::empty()
    } else {
        let rest = scans(s.next(es[0]), es.skip(1));
        match s.output(es[0]) {
            Some(ActionView::Scan(j)) => seq![j] + rest,
            _ => rest,
        }
    }
}

/// Index of the page that the session will ask the store for next, if it
/// asks again: the page at the cursor until its scan has been asked for, the
/// one after it from then on.
pub open spec fn next_page(s: SessionView) -> int {
    match s.state {
        State::Fetching { lease: false } => s.cursor,
        _ => s.cursor + 1,
    }
}

/// Validity is kept: a valid session is valid after any event.
pub proof fn lemma_next_valid(s: SessionView, e: EventView)
    requires
        s.valid(),
    ensures
        s.next(e).valid(),
{
    if s.awaits(e) && e is Sent {
        assert(s.cursor + 1 <= i64::MAX) by (nonlinear_arith)
            requires
                s.cursor * s.page_size + 1 <= i64::MAX,
                s.page_size >= 1,
                s.cursor >= 0,
        ;
    }
}

/// Validity is kept along any run of events.
pub proof fn lemma_run_valid(s: SessionView, es: Seq<EventView>)
    requires
        s.valid(),
    ensures
        run(s, es).valid(),
    decreases es.len(),
{
    if es.len() > 0 {
        lemma_next_valid(s, es[0]);
        lemma_run_valid(s.next(es[0]), es.skip(1));
    }
}

/// A run of events taken in two parts gives the session and the actions of
/// the whole.
pub proof fn lemma_run_concat(s: SessionView, a: Seq<EventView>, b: Seq<EventView>)
    ensures
        run(s, a + b) == run(run(s, a), b),
        actions(s, a + b) == actions(s, a) + actions(run(s, a), b),
        scans(s, a + b) == scans(s, a) + scans(run(s, a), b),
    decreases a.len(),
{
    if a.len() == 0 {
        assert(a + b =~= b);
        assert(actions(s, a) + actions(run(s, a), b) =~= actions(s, b));
        assert(scans(s, a) + scans(run(s, a), b) =~= scans(s, b));
    } else {
        assert((a + b).skip(1) =~= a.skip(1) + b);
        assert((a + b)[0] == a[0]);
        lemma_run_concat(s.next(a[0]), a.skip(1), b);
        assert(actions(s, a + b) =~= actions(s, a) + actions(run(s, a), b));
        assert(scans(s, a + b) =~= scans(s, a) + scans(run(s, a), b));
    }
}

/// An ended listing stays ended: whatever is reported to it afterwards, the
/// session does not change and asks for nothing, so neither the pool nor the
/// store is called again.
pub proof fn lemma_terminal_absorbs(s: SessionView, es: Seq<EventView>)
    requires
        s.terminal(),
    ensures
        run(s, es) == s,
        actions(s, es) == Seq::<ActionView>::empty(),
        scans(s, es) == Seq::<Janela>::empty(),
    decreases es.len(),
{
    if es.len() > 0 {
        lemma_terminal_absorbs(s.next(es[0]), es.skip(1));
    }
}

/// Cancellation: when the channel reports that the consumer is gone, the
/// listing ends there. The session is aborted for that reason, holds no
/// lease, and the one action it asks for, then and ever after, is to close
/// without a status. No page is fetched after the one whose hand-over
/// failed.
pub proof fn lemma_cancel(s: SessionView, antes: Seq<EventView>, depois: Seq<EventView>)
    requires
        s.valid(),
        run(s, antes).state is Emitting,
    ensures
        run(s, antes + seq![EventView::Closed] + depois).state == State::Aborted(
            AbortReason::ConsumerGone,
        ),
        run(s, antes + seq![EventView::Closed] + depois).cursor == run(s, antes).cursor,
        !run(s, antes + seq![EventView::Closed] + depois).holds_lease(),
        actions(s, antes + seq![EventView::Closed] + depois) == actions(s, antes).push(
            ActionView::Close(None),
        ),
        scans(s, antes + seq![EventView::Closed] + depois) == scans(s, antes),
{
    let m = run(s, antes);
    let fim = seq![EventView::Closed] + depois;
    assert(antes + seq![EventView::Closed] + depois =~= antes + fim);
    lemma_run_concat(s, antes, fim);
    assert(fim[0] == EventView::Closed);
    assert(fim.skip(1) =~= depois);
    let t = m.next(EventView::Closed);
    lemma_terminal_absorbs(t, depois);
    assert(actions(m, fim) =~= seq![ActionView::Close(None)]);
    assert(scans(m, fim) =~= Seq::<Janela>::empty());
    assert(actions(s, antes) + actions(m, fim) =~= actions(s, antes).push(ActionView::Close(None)));
    assert(scans(s, antes) + scans(m, fim) =~= scans(s, antes));
}

/// The lease is held for one scan and no longer. A session comes to hold a
/// lease only by an acquisition that succeeded, and asks for the scan at
/// once; the event that reports the scan's outcome finds the lease returned.
/// While a page is handed over, and once the listing has ended, no lease is
/// held.
pub proof fn lemma_lease(s: SessionView, e: EventView)
    requires
        s.valid(),
    ensures
        s.holds_lease() && s.awaits(e) ==> !s.next(e).holds_lease(),
        !s.holds_lease() && s.next(e).holds_lease() ==> e is LeaseAcquired && s.output(e) == Some(
            ActionView::Scan(janela(s.cursor, s.page_size)),
        ),
        s.output(e) == Some(ActionView::Acquire) ==> !s.holds_lease() && !s.next(e).holds_lease(),
        s.output(e) matches Some(ActionView::Send(_)) ==> !s.next(e).holds_lease(),
        s.output(e) matches Some(ActionView::Close(_)) ==> !s.next(e).holds_lease()
            && s.next(e).terminal(),
        s.next(e).terminal() ==> !s.next(e).holds_lease(),
{
}

/// Each page is asked for at most once, and the pages are asked for in order:
/// along any run of events, the scans that a session asks for are those of
/// the pages from [`next_page`] on, one after the other.
pub proof fn lemma_scans_in_order(s: SessionView, es: Seq<EventView>, i: int)
    requires
        s.valid(),
        0 <= i < scans(s, es).len(),
    ensures
        scans(s, es)[i] == janela(next_page(s) + i, s.page_size),
    decreases es.len(),
{
    let t = s.next(es[0]);
    lemma_next_valid(s, es[0]);
    let rest = scans(t, es.skip(1));
    match s.output(es[0]) {
        Some(ActionView::Scan(j)) => {
            assert(scans(s, es) =~= seq![j] + rest);
            if i > 0 {
                lemma_scans_in_order(t, es.skip(1), i - 1);
            }
        },
        _ => {
            assert(scans(s, es) =~= rest);
            if t.terminal() {
                lemma_terminal_absorbs(t, es.skip(1));
            } else {
                lemma_scans_in_order(t, es.skip(1), i);
            }
        },
    }
}

/// The pages that the session hands to the channel along a run of events,
/// in order.
pub open spec fn sends(s: SessionView, es: Seq<EventView>) -> Seq<Seq<ClienteResponseView>>
    decreases es.len(),
{
    if es.len() == 0 {
        Seq::empty()
    } else {
        let rest = sends(s.next(es[0]), es.skip(1));
        match s.output(es[0]) {
            Some(ActionView::Send(p)) => seq![p] + rest,
            _ => rest,
        }
    }
}

/// Number of pages that the session has offered to the channel: those that
/// the channel took, which the cursor counts, and the one that is being
/// handed over or was refused because the consumer had left.
pub open spec fn offered(s: SessionView) -> int {
    if s.state is Emitting || s.state == State::Aborted(AbortReason::ConsumerGone) {
        s.cursor + 1
    } else {
        s.cursor
    }
}

/// The cursor counts the pages taken. Along any run of events the session
/// hands over as many pages as [`offered`] grows by, the cursor moves by one
/// for each page that the channel takes and never otherwise, and no page
/// that is handed over is empty.
pub proof fn lemma_cursor_counts_pages(s: SessionView, es: Seq<EventView>)
    requires
        s.valid(),
    ensures
        sends(s, es).len() == offered(run(s, es)) - offered(s),
        run(s, es).cursor >= s.cursor,
        forall|i: int| 0 <= i < sends(s, es).len() ==> (#[trigger] sends(s, es)[i]).len() > 0,
    decreases es.len(),
{
    if es.len() > 0 {
        let t = s.next(es[0]);
        lemma_next_valid(s, es[0]);
        lemma_cursor_counts_pages(t, es.skip(1));
        let rest = sends(t, es.skip(1));
        match s.output(es[0]) {
            Some(ActionView::Send(p)) => {
                assert(sends(s, es) =~= seq![p] + rest);
                assert forall|i: int| 0 <= i < sends(s, es).len() implies (#[trigger] sends(
                    s,
                    es,
                )[i]).len() > 0 by {
                    if i > 0 {
                        assert(sends(s, es)[i] == rest[i - 1]);
                    }
                }
            },
            _ => {
                assert(sends(s, es) =~= rest);
            },
        }
    }
}

/// The channel is closed once. An action to close is the last action that a
/// session asks for, and the session has ended when it asks for it.
pub proof fn lemma_close_is_last(s: SessionView, es: Seq<EventView>, i: int)
    requires
        0 <= i < actions(s, es).len(),
        actions(s, es)[i] is Close,
    ensures
        i == actions(s, es).len() - 1,
        run(s, es).terminal(),
    decreases es.len(),
{
    let t = s.next(es[0]);
    let rest = actions(t, es.skip(1));
    match s.output(es[0]) {
        Some(a) => {
            assert(actions(s, es) =~= seq![a] + rest);
            if i == 0 {
                lemma_terminal_absorbs(t, es.skip(1));
            } else {
                lemma_close_is_last(t, es.skip(1), i - 1);
            }
        },
        None => {
            assert(actions(s, es) =~= rest);
            lemma_close_is_last(t, es.skip(1), i);
        },
    }
}

/// A listing that ends closes its channel. When a run of events takes a
/// session that had not ended to its end, the last action that the session
/// asks for is to close: without a status if the data ended or the consumer
/// left, with one if the pool or the store failed.
pub proof fn lemma_end_closes(s: SessionView, es: Seq<EventView>)
    requires
        !s.terminal(),
        run(s, es).terminal(),
    ensures
        actions(s, es).len() > 0,
        actions(s, es).last() is Close,
        actions(s, es).last() matches ActionView::Close(status) && (status is Some <==> run(
            s,
            es,
        ).state == State::Aborted(AbortReason::PoolError) || run(s, es).state == State::Aborted(
            AbortReason::StoreError,
        )),
    decreases es.len(),
{
    let t = s.next(es[0]);
    let rest = actions(t, es.skip(1));
    if t.terminal() {
        lemma_terminal_absorbs(t, es.skip(1));
        assert(actions(s, es) =~= seq![s.output(es[0])->0]);
    } else {
        lemma_end_closes(t, es.skip(1));
        match s.output(es[0]) {
            Some(a) => {
                assert(actions(s, es) =~= seq![a] + rest);
            },
            None => {
                assert(actions(s, es) =~= rest);
            },
        }
    }
}

/// The rows that a store reads within a window of a table, where `linhas`
/// are all the rows of the table by ascending id: those after the first
/// `offset`, up to `limit` of them.
pub open spec fn recorte(linhas: Seq<ClienteView>, offset: int, limit: int) -> Seq<ClienteView> {
    let inicio = if offset < 0 {
        0
    } else if offset > linhas.len() {
        linhas.len() as int
    } else {
        offset
    };
    let fim = if limit < 0 {
        inicio
    } else if inicio + limit > linhas.len() {
        linhas.len() as int
    } else {
        inicio + limit
    };
    linhas.subrange(inicio, fim)
}

/// The rows of page `pagina` of a table whose rows by ascending id are
/// `linhas`.
pub open spec fn pagina_de(linhas: Seq<ClienteView>, pagina: int, tamanho: int) -> Seq<
    ClienteView,
> {
    recorte(linhas, deslocamento(pagina, tamanho), tamanho)
}

/// What comes of an action when pool, store and consumer all do their part
/// for a table whose rows by ascending id are `linhas`: the pool leases a
/// connection, the store reads the rows in the window, the consumer takes
/// the page. Closing is the last action and has no outcome.
pub open spec fn answer(linhas: Seq<ClienteView>, a: ActionView) -> Option<EventView> {
    match a {
        ActionView::Acquire => Some(EventView::LeaseAcquired),
        ActionView::Scan(j) => Some(
            EventView::PageRead(recorte(linhas, j.offset as int, j.limit as int)),
        ),
        ActionView::Send(_) => Some(EventView::Sent),
        ActionView::Close(_) => None,
    }
}

/// A listing carried through against the table `linhas`, starting with the
/// session `s` and the action `a` that it asked for, for at most `fuel`
/// actions: the session at the end, and the pages that the consumer took, in
/// the order in which it took them.
pub open spec fn deliver(linhas: Seq<ClienteView>, s: SessionView, a: ActionView, fuel: nat) -> (
    SessionView,
    Seq<Seq<ClienteResponseView>>,
)
    decreases fuel,
{
    if fuel == 0 {
        (s, Seq::empty())
    } else {
        let taken = match a {
            ActionView::Send(p) => seq![p],
            _ => Seq::empty(),
        };
        match answer(linhas, a) {
            None => (s, taken),
            Some(e) => match s.output(e) {
                None => (s, taken),
                Some(a2) => {
                    let r = deliver(linhas, s.next(e), a2, (fuel - 1) as nat);
                    (r.0, taken + r.1)
                },
            },
        }
    }
}

/// Number of pages that a listing of a table of `n` rows has, `tamanho` rows
/// to the page: the rows but the first, divided by the page size and rounded
/// up.
pub open spec fn paginas(n: int, tamanho: int) -> int {
    if n <= 1 {
        0
    } else {
        (n - 1 + tamanho - 1) / tamanho
    }
}

/// The rows that a listing covers: all but the row with the smallest id.
pub open spec fn listadas(linhas: Seq<ClienteView>) -> Seq<ClienteView> {
    if linhas.len() <= 1 {
        Seq::empty()
    } else {
        linhas.subrange(1, linhas.len() as int)
    }
}

/// The rows are in strictly ascending order of id, so no id occurs twice.
pub open spec fn ordenada(linhas: Seq<ClienteView>) -> bool {
    forall|i: int, j: int| 0 <= i < j < linhas.len() ==> linhas[i].id < linhas[j].id
}

/// The first `m` pages of a table, as they are sent.
pub open spec fn primeiras(linhas: Seq<ClienteView>, tamanho: int, m: int) -> Seq<
    Seq<ClienteResponseView>,
> {
    Seq::new(m as nat, |i: int| respostas(pagina_de(linhas, i, tamanho)))
}

/// Where the pages of a table begin: before the last page every page is
/// full, the last page is not empty, and the page after it is.
pub proof fn lemma_paginas(n: int, tamanho: int, i: int)
    requires
        n >= 0,
        tamanho >= 1,
        0 <= i <= paginas(n, tamanho),
    ensures
        paginas(n, tamanho) >= 0,
        i < paginas(n, tamanho) ==> deslocamento(i, tamanho) < n,
        i + 1 < paginas(n, tamanho) ==> deslocamento(i, tamanho) + tamanho < n,
        deslocamento(paginas(n, tamanho), tamanho) >= n,
        deslocamento(i, tamanho) <= n + tamanho,
        deslocamento(i, tamanho) >= 1,
        deslocamento(i + 1, tamanho) == deslocamento(i, tamanho) + tamanho,
{
    let k = paginas(n, tamanho);
    assert((i + 1) * tamanho == i * tamanho + tamanho) by (nonlinear_arith);
    assert(i * tamanho >= 0) by (nonlinear_arith)
        requires
            i >= 0,
            tamanho >= 1,
    ;
    if n <= 1 {
        assert(k == 0);
        assert(0 * tamanho == 0) by (nonlinear_arith);
    } else {
        let x = n - 1 + tamanho - 1;
        assert(x == tamanho * (x / tamanho) + x % tamanho && 0 <= x % tamanho < tamanho) by {
            vstd::arithmetic::div_mod::lemma_fundamental_div_mod(x, tamanho);
            vstd::arithmetic::div_mod::lemma_mod_bound(x, tamanho);
        }
        assert(k * tamanho == tamanho * k) by (nonlinear_arith);
        assert(k >= 0) by (nonlinear_arith)
            requires
                tamanho * k + tamanho > x,
                x >= tamanho - 1,
                tamanho >= 1,
        ;
        if i < k {
            assert(i * tamanho <= (k - 1) * tamanho) by (nonlinear_arith)
                requires
                    i <= k - 1,
                    tamanho >= 1,
            ;
            assert((k - 1) * tamanho == k * tamanho - tamanho) by (nonlinear_arith);
        }
        if i + 1 < k {
            assert(i * tamanho <= (k - 2) * tamanho) by (nonlinear_arith)
                requires
                    i <= k - 2,
                    tamanho >= 1,
            ;
            assert((k - 2) * tamanho == k * tamanho - 2 * tamanho) by (nonlinear_arith);
        }
        assert(i * tamanho <= k * tamanho) by (nonlinear_arith)
            requires
                i <= k,
                tamanho >= 1,
        ;
    }
}

/// The pages of a table, one after the other, are its rows from the second
/// on: the first `m` pages hold the rows up to where page `m` begins.
pub proof fn lemma_primeiras_flatten(linhas: Seq<ClienteView>, tamanho: int, m: int)
    requires
        tamanho >= 1,
        linhas.len() >= 1,
        0 <= m <= paginas(linhas.len() as int, tamanho),
    ensures
        deslocamento(m, tamanho) >= 1,
        primeiras(linhas, tamanho, m).flatten() == respostas(
            linhas.subrange(
                1,
                if deslocamento(m, tamanho) <= linhas.len() {
                    deslocamento(m, tamanho)
                } else {
                    linhas.len() as int
                },
            ),
        ),
    decreases m,
{
    let n = linhas.len() as int;
    lemma_paginas(n, tamanho, m);
    if m == 0 {
        assert(0 * tamanho == 0) by (nonlinear_arith);
        assert(primeiras(linhas, tamanho, 0) =~= Seq::<Seq<ClienteResponseView>>::empty());
        assert(respostas(linhas.subrange(1, 1)) =~= Seq::<ClienteResponseView>::empty());
    } else {
        lemma_primeiras_flatten(linhas, tamanho, m - 1);
        lemma_paginas(n, tamanho, m - 1);
        let antes = primeiras(linhas, tamanho, m - 1);
        let p = pagina_de(linhas, m - 1, tamanho);
        assert(primeiras(linhas, tamanho, m) =~= antes.push(respostas(p)));
        antes.lemma_flatten_push(respostas(p));
        let a = deslocamento(m - 1, tamanho);
        let b = if deslocamento(m, tamanho) <= n {
            deslocamento(m, tamanho)
        } else {
            n
        };
        assert(p =~= linhas.subrange(a, b));
        assert(respostas(linhas.subrange(1, a)) + respostas(linhas.subrange(a, b)) =~= respostas(
            linhas.subrange(1, b),
        ));
    }
}

/// A session that is about to fetch page `n`.
pub open spec fn fetching(n: int, page_size: int) -> SessionView {
    SessionView { state: State::Fetching { lease: false }, cursor: n, page_size }
}

/// A listing carried through from page `n` on delivers the pages from `n` to
/// the last and ends cleanly.
pub proof fn lemma_deliver_from(linhas: Seq<ClienteView>, page_size: int, n: int, fuel: nat)
    requires
        page_size >= 1,
        linhas.len() + page_size <= i64::MAX,
        0 <= n <= paginas(linhas.len() as int, page_size),
        fuel >= 3 * (paginas(linhas.len() as int, page_size) - n) + 2,
    ensures
        deliver(linhas, fetching(n, page_size), ActionView::Acquire, fuel) == (
            SessionView {
                state: State::Done,
                cursor: paginas(linhas.len() as int, page_size),
                page_size,
            },
            Seq::new(
                (paginas(linhas.len() as int, page_size) - n) as nat,
                |i: int| respostas(pagina_de(linhas, n + i, page_size)),
            ),
        ),
    decreases paginas(linhas.len() as int, page_size) - n,
{
    let len = linhas.len() as int;
    let k = paginas(len, page_size);
    lemma_paginas(len, page_size, n);
    let s0 = fetching(n, page_size);
    let j = janela(n, page_size);
    assert(j.offset == deslocamento(n, page_size));
    assert(j.limit == page_size);
    let s1 = s0.next(EventView::LeaseAcquired);
    let p = pagina_de(linhas, n, page_size);
    assert(answer(linhas, ActionView::Scan(j)) == Some(EventView::PageRead(p)));
    let s2 = s1.next(EventView::PageRead(p));
    let esperado = Seq::new((k - n) as nat, |i: int| respostas(pagina_de(linhas, n + i, page_size)));
    reveal_with_fuel(deliver, 4);
    if n == k {
        assert(p.len() == 0);
        assert(s1.output(EventView::PageRead(p)) == Some(ActionView::Close(None)));
        assert(deliver(linhas, s0, ActionView::Acquire, fuel).1 =~= esperado);
    } else {
        assert(p.len() > 0);
        let rp = respostas(p);
        assert(s1.output(EventView::PageRead(p)) == Some(ActionView::Send(rp)));
        lemma_paginas(len, page_size, n + 1);
        assert(cabe(n + 1, page_size));
        let s3 = s2.next(EventView::Sent);
        assert(s3 == fetching(n + 1, page_size));
        lemma_deliver_from(linhas, page_size, n + 1, (fuel - 3) as nat);
        let r = deliver(linhas, s3, ActionView::Acquire, (fuel - 3) as nat);
        assert(deliver(linhas, s0, ActionView::Acquire, fuel).0 == r.0);
        assert(deliver(linhas, s0, ActionView::Acquire, fuel).1 =~= Seq::<
            Seq<ClienteResponseView>,
        >::empty() + (Seq::<Seq<ClienteResponseView>>::empty() + (seq![rp] + r.1)));
        assert(Seq::<Seq<ClienteResponseView>>::empty() + (Seq::<Seq<ClienteResponseView>>::empty()
            + (seq![rp] + r.1)) =~= esperado);
    }
}

/// A listing delivers the table. When the pool leases, the store reads and
/// the consumer takes, a listing of a table of ordered rows ends cleanly
/// after as many pages as [`paginas`] counts. Each page holds at least one
/// row and at most a page's worth, the pages come in the order of the table,
/// and together they hold every row but the first exactly once, by strictly
/// ascending id.
pub proof fn lemma_listing_delivers_table(linhas: Seq<ClienteView>, page_size: int, fuel: nat)
    requires
        page_size >= 1,
        linhas.len() + page_size <= i64::MAX,
        fuel >= 3 * paginas(linhas.len() as int, page_size) + 2,
    ensures
        ({
            let k = paginas(linhas.len() as int, page_size);
            let r = deliver(linhas, SessionView::initial(page_size), ActionView::Acquire, fuel);
            &&& r.0 == SessionView { state: State::Done, cursor: k, page_size }
            &&& r.1.len() == k
            &&& forall|i: int|
                0 <= i < k ==> #[trigger] r.1[i] == respostas(pagina_de(linhas, i, page_size)) && 1
                    <= r.1[i].len() <= page_size
            &&& forall|i: int| 0 <= i < k - 1 ==> (#[trigger] r.1[i]).len() == page_size
            &&& r.1.flatten() == respostas(listadas(linhas))
            &&& ordenada(linhas) ==> forall|i: int, j: int|
                0 <= i < j < r.1.flatten().len() ==> r.1.flatten()[i].id < r.1.flatten()[j].id
        }),
{
    let len = linhas.len() as int;
    let k = paginas(len, page_size);
    lemma_paginas(len, page_size, 0);
    lemma_deliver_from(linhas, page_size, 0, fuel);
    let r = deliver(linhas, SessionView::initial(page_size), ActionView::Acquire, fuel);
    assert(r.1 =~= primeiras(linhas, page_size, k));
    assert forall|i: int| 0 <= i < k implies #[trigger] r.1[i] == respostas(
        pagina_de(linhas, i, page_size),
    ) && 1 <= r.1[i].len() <= page_size && (i < k - 1 ==> r.1[i].len() == page_size) by {
        lemma_paginas(len, page_size, i);
    }
    if len >= 1 {
        lemma_primeiras_flatten(linhas, page_size, k);
        lemma_paginas(len, page_size, k);
        assert(linhas.subrange(1, len) =~= listadas(linhas));
    } else {
        assert(r.1 =~= Seq::<Seq<ClienteResponseView>>::empty());
        assert(respostas(listadas(linhas)) =~= Seq::<ClienteResponseView>::empty());
    }
}

/// Two listings side by side. Each event is marked with the listing that it
/// belongs to, `true` for the first; the events of the two come mixed in any
/// order. The result is the two sessions after the run.
pub open spec fn run_both(a: SessionView, b: SessionView, es: Seq<(bool, EventView)>) -> (
    SessionView,
    SessionView,
)
    decreases es.len(),
{
    if es.len() == 0 {
        (a, b)
    } else if es[0].0 {
        run_both(a.next(es[0].1), b, es.skip(1))
    } else {
        run_both(a, b.next(es[0].1), es.skip(1))
    }
}

/// The actions that two listings side by side ask for, each marked with the
/// listing that asks.
pub open spec fn actions_both(a: SessionView, b: SessionView, es: Seq<(bool, EventView)>) -> Seq<
    (bool, ActionView),
>
    decreases es.len(),
{
    if es.len() == 0 {
        Seq::empty()
    } else if es[0].0 {
        let rest = actions_both(a.next(es[0].1), b, es.skip(1));
        match a.output(es[0].1) {
            Some(x) => seq![(true, x)] + rest,
            None => rest,
        }
    } else {
        let rest = actions_both(a, b.next(es[0].1), es.skip(1));
        match b.output(es[0].1) {
            Some(x) => seq![(false, x)] + rest,
            None => rest,
        }
    }
}

/// The items of a marked sequence that belong to one of the two listings,
/// without their marks.
pub open spec fn only<T>(xs: Seq<(bool, T)>, first: bool) -> Seq<T>
    decreases xs.len(),
{
    if xs.len() == 0 {
        Seq::empty()
    } else if xs[0].0 == first {
        seq![xs[0].1] + only(xs.skip(1), first)
    } else {
        only(xs.skip(1), first)
    }
}

proof fn lemma_only_cons<T>(x: (bool, T), xs: Seq<(bool, T)>, first: bool)
    ensures
        only(seq![x] + xs, first) == if x.0 == first {
            seq![x.1] + only(xs, first)
        } else {
            only(xs, first)
        },
{
    assert((seq![x] + xs).skip(1) =~= xs);
    assert((seq![x] + xs)[0] == x);
}

proof fn lemma_run_cons(s: SessionView, e: EventView, es: Seq<EventView>)
    ensures
        run(s, seq![e] + es) == run(s.next(e), es),
        actions(s, seq![e] + es) == match s.output(e) {
            Some(a) => seq![a] + actions(s.next(e), es),
            None => actions(s.next(e), es),
        },
{
    assert((seq![e] + es).skip(1) =~= es);
    assert((seq![e] + es)[0] == e);
}

/// Listings do not touch each other. When two listings run side by side,
/// each session ends where it would have ended alone on its own events, and
/// is asked for the actions it would have been asked for alone, in the same
/// order. Whatever happens to one of them, a consumer that leaves included,
/// changes nothing of what the other delivers or of how it ends.
pub proof fn lemma_sessions_independent(
    a: SessionView,
    b: SessionView,
    es: Seq<(bool, EventView)>,
)
    ensures
        run_both(a, b, es) == (run(a, only(es, true)), run(b, only(es, false))),
        only(actions_both(a, b, es), true) == actions(a, only(es, true)),
        only(actions_both(a, b, es), false) == actions(b, only(es, false)),
    decreases es.len(),
{
    if es.len() > 0 {
        let e = es[0].1;
        let rest = es.skip(1);
        if es[0].0 {
            lemma_sessions_independent(a.next(e), b, rest);
            lemma_run_cons(a, e, only(rest, true));
            let tail = actions_both(a.next(e), b, rest);
            match a.output(e) {
                Some(x) => {
                    lemma_only_cons((true, x), tail, true);
                    lemma_only_cons((true, x), tail, false);
                },
                None => {},
            }
        } else {
            lemma_sessions_independent(a, b.next(e), rest);
            lemma_run_cons(b, e, only(rest, false));
            let tail = actions_both(a, b.next(e), rest);
            match b.output(e) {
                Some(x) => {
                    lemma_only_cons((false, x), tail, true);
                    lemma_only_cons((false, x), tail, false);
                },
                None => {},
            }
        }
    }
}

} // verus!
