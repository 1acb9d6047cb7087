//! The pool: a fixed set of clients over one target, which takes turns
//! among them.
use vstd::prelude::*;
use vstd::arithmetic::div_mod::{lemma_mod_add_multiples_vanish, lemma_small_mod};
use std::sync::Arc;
use std::sync::atomic::{AtomicU32, Ordering};
use duckdb::Connection;
use duckdb::Error as DbError;
use crate::client::Client;
use crate::error::Error;
use crate::foreign::share;

verus! {

/// Index of the member that serves the call that drew ticket `n` from the
/// pool's counter, among `len` members.
pub fn member_index(n: u32, len: usize) -> (r: usize)
    requires
        len > 0,
    ensures
        r == n as nat % len as nat,
        r < len,
{
    (n as usize) % len
}

/// How many of the `calls` consecutive tickets `start`, `start + 1`, ...
/// fall to member `j` of a pool of `len` members.
pub open spec fn turns_of(start: nat, calls: nat, len: nat, j: nat) -> nat
    decreases calls,
{
    if calls == 0 {
        0
    } else {
        turns_of(start, (calls - 1) as nat, len, j) + if (start + calls - 1) as nat % len == j {
            1nat
        } else {
            0nat
        }
    }
}

proof fn lemma_turns_shift(start: nat, calls: nat, len: nat, j: nat)
    requires
        len > 0,
    ensures
        turns_of(start + len, calls, len, j) == turns_of(start, calls, len, j),
    decreases calls,
{
    if calls > 0 {
        lemma_turns_shift(start, (calls - 1) as nat, len, j);
        lemma_mod_add_multiples_vanish((start + calls - 1) as int, len as int);
    }
}

proof fn lemma_turns_split(start: nat, a: nat, b: nat, len: nat, j: nat)
    ensures
        turns_of(start, a + b, len, j) == turns_of(start, a, len, j) + turns_of(start + a, b, len, j),
    decreases b,
{
    if b > 0 {
        lemma_turns_split(start, a, (b - 1) as nat, len, j);
        assert((a + b - 1) as nat == a + (b - 1) as nat);
    }
}

proof fn lemma_turns_from_zero(calls: nat, len: nat, j: nat)
    requires
        calls <= len,
        j < len,
    ensures
        turns_of(0, calls, len, j) == if j < calls {
            1nat
        } else {
            0nat
        },
    decreases calls,
{
    if calls > 0 {
        lemma_turns_from_zero((calls - 1) as nat, len, j);
        lemma_small_mod((calls - 1) as nat, len);
    }
}

proof fn lemma_turns_window(start: nat, len: nat, j: nat)
    requires
        j < len,
    ensures
        turns_of(start, len, len, j) == 1,
    decreases start,
{
    if start == 0 {
        lemma_turns_from_zero(len, len, j);
    } else {
        let s = (start - 1) as nat;
        lemma_turns_window(s, len, j);
        lemma_turns_split(s, 1, len, len, j);
        lemma_turns_split(s, len, 1, len, j);
        lemma_turns_shift(s, 1, len, j);
        assert(1 + len == len + 1);
    }
}

/// Turns are even: of `len * k` calls in a row, taking the consecutive
/// tickets from `start` on without the counter wrapping, every one of the
/// `len` members serves exactly `k`.
pub proof fn round_robin_is_even(start: nat, len: nat, k: nat, j: nat)
    requires
        j < len,
        start + len * k <= 0x1_0000_0000,
    ensures
        turns_of(start, len * k, len, j) == k,
    decreases k,
{
    if k > 0 {
        let k0 = (k - 1) as nat;
        assert(len * k == len * k0 + len) by (nonlinear_arith)
            requires
                k0 == k - 1,
        ;
        assert(len * k0 <= len * k) by (nonlinear_arith)
            requires
                k0 <= k,
        ;
        round_robin_is_even(start, len, k0, j);
        lemma_turns_split(start, len * k0, len, len, j);
        lemma_turns_window(start + len * k0, len, j);
    } else {
        assert(len * k == 0) by (nonlinear_arith)
            requires
                k == 0,
        ;
    }
}

/// The number of connections of a pool: the one asked for, or else the
/// number of logical processors where it is known, or else one.
pub fn resolve_num_conns(requested: Option<usize>, available: Option<usize>) -> (r: usize)
    ensures
        requested is Some ==> r == requested->Some_0,
        requested is None && available is Some ==> r == available->Some_0,
        requested is None && available is None ==> r == 1,
{
    match requested {
        Some(n) => n,
        None => match available {
            Some(n) => n,
            None => 1,
        },
    }
}

/// Whether every member of a pool opened.
pub open spec fn opened_all(opened: Seq<Result<Client, Error>>) -> bool {
    forall|i: int| 0 <= i < opened.len() ==> (#[trigger] opened[i]) is Ok
}

/// Gathers the outcomes of opening each member of a pool: all the clients, in
/// order, when each opened; else the first error, since a pool is all or
/// nothing.
pub fn gather_clients(opened: Vec<Result<Client, Error>>) -> (r: Result<Vec<Client>, Error>)
    ensures
        r is Ok <==> opened_all(opened@),
        r is Ok ==> r->Ok_0@.len() == opened@.len() && forall|i: int|
            0 <= i < opened@.len() ==> opened@[i] == Ok::<Client, Error>(#[trigger] r->Ok_0@[i]),
        r is Err ==> exists|i: int|
            0 <= i < opened@.len() && opened@[i] == Err::<Client, Error>(r->Err_0) && opened_all(
                opened@.take(i),
            ),
{
    let mut clients: Vec<Client> = Vec::new();
    let ghost all = opened@;
    let mut rest = opened;
    while rest.len() > 0
        invariant
            all == opened@,
            clients@.len() + rest@.len() == all.len(),
            forall|i: int| 0 <= i < clients@.len() ==> all[i] == Ok::<Client, Error>(#[trigger] clients@[i]),
            rest@ == all.skip(clients@.len() as int),
        decreases rest@.len(),
    {
        let k = clients.len();
        assert(rest@[0] == all[k as int]);
        match rest.remove(0) {
            Ok(c) => {
                clients.push(c);
                assert(rest@ =~= all.skip(clients@.len() as int));
            },
            Err(e) => {
                assert forall|i: int| 0 <= i < k implies (#[trigger] all.take(k as int)[i]) is Ok by {
                    assert(all[i] == Ok::<Client, Error>(clients@[i]));
                }
                assert(all[k as int] == Err::<Client, Error>(e));
                assert(!(all[k as int] is Ok));
                return Err(e);
            },
        }
    }
    assert forall|i: int| 0 <= i < all.len() implies (#[trigger] all[i]) is Ok by {
        assert(all[i] == Ok::<Client, Error>(clients@[i]));
    }
    Ok(clients)
}

/// Whether every member's close succeeded.
pub open spec fn all_closed(outcomes: Seq<Result<(), Error>>) -> bool {
    forall|i: int| 0 <= i < outcomes.len() ==> (#[trigger] outcomes[i]) is Ok
}

/// The outcome of closing the members of a pool, from the outcomes of the
/// members' closes in member order: success when every one succeeded, else
/// the error of the first that failed.
pub fn first_failure(outcomes: Vec<Result<(), Error>>) -> (r: Result<(), Error>)
    ensures
        r is Ok <==> all_closed(outcomes@),
        r is Err ==> exists|i: int|
            0 <= i < outcomes@.len() && outcomes@[i] == Err::<(), Error>(r->Err_0) && all_closed(
                outcomes@.take(i),
            ),
{
    let ghost all = outcomes@;
    let n = outcomes.len();
    let mut rest = outcomes;
    let mut k: usize = 0;
    while rest.len() > 0
        invariant
            all == outcomes@,
            all.len() == n,
            k + rest@.len() == all.len(),
            all_closed(all.take(k as int)),
            rest@ == all.skip(k as int),
        decreases rest@.len(),
    {
        assert(rest@[0] == all[k as int]);
        match rest.remove(0) {
            Ok(()) => {
                assert(all.take(k + 1) =~= all.take(k as int).push(all[k as int]));
                assert(all_closed(all.take(k + 1)));
                k = k + 1;
                assert(rest@ =~= all.skip(k as int));
            },
            Err(e) => {
                assert(all[k as int] == Err::<(), Error>(e));
                assert(!(all[k as int] is Ok));
                return Err(e);
            },
        }
    }
    assert(all.take(k as int) =~= all);
    Ok(())
}

struct State {
    clients: Vec<Client>,
    counter: AtomicU32,
}

impl State {
    #[verifier::type_invariant]
    spec fn has_members(&self) -> bool {
        self.clients@.len() > 0
    }
}

/// A fixed set of clients that calls are spread over by turns. Clones share
/// the members and the counter.
#[derive(Clone)]
pub struct Pool {
    state: Arc<State>,
}

impl Pool {
    /// The members, in the order in which they take turns.
    pub closed spec fn members_view(&self) -> Seq<Client> {
        self.state.clients@
    }

    /// The number of members.
    pub open spec fn size(&self) -> nat {
        self.members_view().len()
    }

    /// The member that serves the call holding `ticket`.
    pub open spec fn serves(&self, ticket: u32) -> Client {
        self.members_view()[(ticket as nat % self.size()) as int]
    }

    /// A pool over `clients`, which take turns in their order, starting with
    /// the first.
    pub fn new(clients: Vec<Client>) -> (p: Pool)
        requires
            clients@.len() > 0,
        ensures
            p.members_view() == clients@,
    {
        let counter = AtomicU32::new(0);
        Pool { state: Arc::new(State { clients, counter }) }
    }

    /// A pool over `clients`, or `Closed` when there are none: a pool without
    /// members has no worker that a call could reach.
    pub fn try_new(clients: Vec<Client>) -> (r: Result<Pool, Error>)
        ensures
            r is Ok <==> clients@.len() > 0,
            r is Ok ==> r->Ok_0.members_view() == clients@,
            r is Err ==> r->Err_0 is Closed,
    {
        if clients.len() == 0 {
            Err(Error::Closed)
        } else {
            Ok(Pool::new(clients))
        }
    }

    /// The members, in order; there is at least one.
    pub fn members(&self) -> (r: &Vec<Client>)
        ensures
            r@ == self.members_view(),
            r@.len() > 0,
    {
        let state: &State = &self.state;
        proof {
            use_type_invariant(state);
        }
        &state.clients
    }

    /// The member that serves the call holding `ticket`: the ticket modulo
    /// the number of members.
    pub fn member_for(&self, ticket: u32) -> (r: &Client)
        ensures
            *r == self.serves(ticket),
    {
        let state: &State = &self.state;
        proof {
            use_type_invariant(state);
        }
        let i = member_index(ticket, state.clients.len());
        &state.clients[i]
    }

    /// The member whose turn it is: the one for the next ticket of the
    /// counter that all clones of the pool share. Which ticket that is
    /// depends on the other threads that call the pool.
    pub fn get(&self) -> (r: &Client)
        ensures
            exists|ticket: u32| *r == #[trigger] self.serves(ticket),
    {
        let state: &State = &self.state;
        let ticket = state.counter.fetch_add(1, Ordering::Relaxed);
        self.member_for(ticket)
    }

    /// Runs `func` on the connection of the member whose turn it is, blocking
    /// the current thread until its outcome comes back.
    pub fn conn_blocking<F, T>(&self, func: F) -> (r: Result<T, Error>)
        where
            F: FnOnce(&Connection) -> Result<T, DbError> + Send + 'static,
            T: Send + 'static,
        requires
            forall|c: &Connection| func.requires((c,)),
        ensures
            r is Err ==> r->Err_0 is Closed || r->Err_0 is Duckdb,
    {
        self.get().conn_blocking(func)
    }

    /// Runs `func` with mutable access to the connection of the member whose
    /// turn it is, blocking the current thread until its outcome comes back.
    pub fn conn_mut_blocking<F, T>(&self, func: F) -> (r: Result<T, Error>)
        where
            F: FnOnce(&mut Connection) -> Result<T, DbError> + Send + 'static,
            T: Send + 'static,
        requires
            forall|c: &mut Connection| func.requires((c,)),
        ensures
            r is Err ==> r->Err_0 is Closed || r->Err_0 is Duckdb,
    {
        self.get().conn_mut_blocking(func)
    }

    /// Closes the members in order, blocking the current thread. The first
    /// member that fails to close ends the walk with its error: the members
    /// after it are then left open.
    pub fn close_blocking(&self) -> (r: Result<(), Error>)
        ensures
            r is Ok || r->Err_0 is Duckdb,
    {
        let clients = &self.state.clients;
        let mut outcomes: Vec<Result<(), Error>> = Vec::new();
        let mut i: usize = 0;
        while i < clients.len()
            invariant
                i <= clients@.len(),
                outcomes@.len() == i,
                all_closed(outcomes@),
                forall|j: int| 0 <= j < i && (#[trigger] outcomes@[j]) is Err ==> outcomes@[j]->Err_0 is Duckdb,
            decreases clients@.len() - i,
        {
            let outcome = clients[i].close_blocking();
            let failed = outcome.is_err();
            outcomes.push(outcome);
            if failed {
                return first_failure(outcomes);
            }
            i = i + 1;
        }
        first_failure(outcomes)
    }

    /// Runs `func` on every member in turn, blocking the current thread, and
    /// gives one outcome per member, in member order. A member's failure
    /// stops none of the others.
    pub fn conn_for_each_blocking<F, T>(&self, func: F) -> (r: Vec<Result<T, Error>>)
        where
            F: Fn(&Connection) -> Result<T, DbError> + Send + Sync + 'static,
            T: Send + 'static,
        requires
            forall|c: &Connection| func.requires((c,)),
        ensures
            r@.len() == self.size(),
            forall|i: int| 0 <= i < r@.len() && (#[trigger] r@[i]) is Err ==> r@[i]->Err_0 is Closed || r@[i]->Err_0 is Duckdb,
    {
        let func = Arc::new(func);
        let clients = &self.state.clients;
        let mut outcomes: Vec<Result<T, Error>> = Vec::new();
        let mut i: usize = 0;
        while i < clients.len()
            invariant
                i <= clients@.len(),
                clients@ == self.state.clients@,
                outcomes@.len() == i,
                forall|c: &Connection| (*func).requires((c,)),
                forall|j: int| 0 <= j < i && (#[trigger] outcomes@[j]) is Err ==> outcomes@[j]->Err_0 is Closed || outcomes@[j]->Err_0 is Duckdb,
            decreases clients@.len() - i,
        {
            let shared = share(&func);
            let one = move |c: &Connection| -> (o: Result<T, DbError>)
                requires
                    (*shared).requires((c,)),
                { (*shared)(c) };
            let outcome = clients[i].conn_blocking(one);
            outcomes.push(outcome);
            i = i + 1;
        }
        outcomes
    }
}

} // verus!
