use async_duckdb::{first_failure, gather_clients, member_index, resolve_num_conns, Client, Connection, Error, Pool};

fn detached_clients(n: usize) -> Vec<Client> {
    (0..n)
        .map(|_| {
            let (client, rx) = Client::with_queue();
            drop(rx);
            client
        })
        .collect()
}

#[test]
fn member_index_wraps_by_size() {
    assert_eq!(member_index(0, 3), 0);
    assert_eq!(member_index(4, 3), 1);
    assert_eq!(member_index(5, 3), 2);
    assert_eq!(member_index(u32::MAX, 2), 1);
    assert_eq!(member_index(u32::MAX, 1), 0);
}

#[test]
fn member_index_turns_are_even() {
    let size: usize = 4;
    let k: u32 = 5;
    let mut served = vec![0u32; size];
    for n in 100..100 + (size as u32) * k {
        served[member_index(n, size)] += 1;
    }
    assert_eq!(served, vec![k; size]);
}

#[test]
fn pool_takes_members_by_turns() {
    let pool = Pool::new(detached_clients(3));
    let mut served = [0usize; 3];
    for _ in 0..3 * 4 {
        let picked = pool.get();
        let i = pool
            .members()
            .iter()
            .position(|c| std::ptr::eq(c, picked))
            .unwrap();
        served[i] += 1;
    }
    assert_eq!(served, [4, 4, 4]);
}

#[test]
fn first_pick_is_first_member() {
    let pool = Pool::new(detached_clients(2));
    assert!(std::ptr::eq(pool.get(), &pool.members()[0]));
    assert!(std::ptr::eq(pool.get(), &pool.members()[1]));
    assert!(std::ptr::eq(pool.get(), &pool.members()[0]));
}

#[test]
fn num_conns_prefers_request() {
    assert_eq!(resolve_num_conns(Some(2), Some(8)), 2);
    assert_eq!(resolve_num_conns(Some(3), None), 3);
}

#[test]
fn num_conns_defaults_to_processors() {
    assert_eq!(resolve_num_conns(None, Some(8)), 8);
}

#[test]
fn num_conns_falls_back_to_one() {
    assert_eq!(resolve_num_conns(None, None), 1);
}

#[test]
fn gather_keeps_all_in_order() {
    let opened: Vec<Result<Client, Error>> = detached_clients(3).into_iter().map(Ok).collect();
    let clients = gather_clients(opened).unwrap();
    assert_eq!(clients.len(), 3);
}

#[test]
fn gather_fails_on_first_error() {
    let mut opened: Vec<Result<Client, Error>> =
        detached_clients(1).into_iter().map(Ok).collect();
    opened.push(Err(Error::Duckdb(duckdb::Error::InvalidQuery)));
    opened.push(Err(Error::Closed));
    let r = gather_clients(opened);
    assert!(matches!(r, Err(Error::Duckdb(duckdb::Error::InvalidQuery))));
}

#[test]
fn gather_of_nothing_is_empty() {
    let r = gather_clients(Vec::new()).unwrap();
    assert!(r.is_empty());
}

#[test]
fn fan_out_gives_one_outcome_per_member() {
    let pool = Pool::new(detached_clients(3));
    let outcomes = pool.conn_for_each_blocking(|_conn: &Connection| Ok::<u32, duckdb::Error>(1));
    assert_eq!(outcomes.len(), 3);
    assert!(outcomes.iter().all(|r| matches!(r, Err(Error::Closed))));
}

#[test]
fn pool_calls_on_gone_members_are_closed() {
    let pool = Pool::new(detached_clients(2));
    for _ in 0..4 {
        let r = pool.conn_blocking(|_conn: &Connection| Ok::<u32, duckdb::Error>(1));
        assert!(matches!(r, Err(Error::Closed)));
    }
    let r = pool.conn_mut_blocking(|_conn: &mut Connection| Ok::<u32, duckdb::Error>(1));
    assert!(matches!(r, Err(Error::Closed)));
}

#[test]
fn pool_close_of_gone_members_is_ok() {
    let pool = Pool::new(detached_clients(2));
    assert!(pool.close_blocking().is_ok());
    assert!(pool.close_blocking().is_ok());
}

#[test]
fn pool_clone_shares_members() {
    let pool = Pool::new(detached_clients(2));
    let other = pool.clone();
    assert!(std::ptr::eq(pool.get(), &other.members()[0]));
    assert!(std::ptr::eq(other.get(), &pool.members()[1]));
}

#[test]
fn member_for_takes_ticket_modulo_size() {
    let pool = Pool::new(detached_clients(3));
    assert!(std::ptr::eq(pool.member_for(0), &pool.members()[0]));
    assert!(std::ptr::eq(pool.member_for(7), &pool.members()[1]));
    assert!(std::ptr::eq(pool.member_for(u32::MAX), &pool.members()[0]));
}

#[test]
fn pool_without_members_is_closed() {
    assert!(matches!(Pool::try_new(Vec::new()), Err(Error::Closed)));
}

#[test]
fn pool_with_members_opens() {
    let pool = Pool::try_new(detached_clients(2)).unwrap();
    assert_eq!(pool.members().len(), 2);
}

#[test]
fn pool_close_succeeds_when_all_close() {
    assert!(first_failure(vec![Ok(()), Ok(()), Ok(())]).is_ok());
    assert!(first_failure(Vec::new()).is_ok());
}

#[test]
fn pool_close_gives_first_failure() {
    let outcomes = vec![
        Ok(()),
        Err(Error::Duckdb(duckdb::Error::InvalidQuery)),
        Err(Error::Duckdb(duckdb::Error::QueryReturnedNoRows)),
    ];
    let r = first_failure(outcomes);
    assert!(matches!(r, Err(Error::Duckdb(duckdb::Error::InvalidQuery))));
}

#[test]
fn pool_members_are_never_empty() {
    let pool = Pool::new(detached_clients(1));
    assert_eq!(pool.members().len(), 1);
}
