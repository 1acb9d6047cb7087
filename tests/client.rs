use async_duckdb::{settle_call, settle_close, Client, Command, Connection, Error};

fn read_one(_conn: &Connection) -> Result<u32, duckdb::Error> {
    Ok(1)
}

#[test]
fn call_on_gone_worker_is_closed() {
    let (client, rx) = Client::with_queue();
    drop(rx);
    for _ in 0..3 {
        assert!(matches!(client.conn_blocking(read_one), Err(Error::Closed)));
    }
    let r = client.conn_mut_blocking(|_conn: &mut Connection| Ok::<u32, duckdb::Error>(2));
    assert!(matches!(r, Err(Error::Closed)));
}

#[test]
fn clone_shares_the_worker() {
    let (client, rx) = Client::with_queue();
    let other = client.clone();
    drop(rx);
    assert!(client.close_blocking().is_ok());
    assert!(matches!(other.conn_blocking(read_one), Err(Error::Closed)));
}

#[test]
fn double_close_is_no_error() {
    let (client, rx) = Client::with_queue();
    drop(rx);
    assert!(client.close_blocking().is_ok());
    assert!(client.close_blocking().is_ok());
}

#[test]
fn submit_queues_an_invoke() {
    let (client, rx) = Client::with_queue();
    let (tx, _answer) = futures_channel::oneshot::channel::<Result<u32, duckdb::Error>>();
    assert!(client.submit(read_one, tx).is_ok());
    assert!(matches!(rx.try_recv(), Ok(Command::Invoke(_))));
}

#[test]
fn submit_close_queues_a_shutdown() {
    let (client, rx) = Client::with_queue();
    let (tx, _answer) = futures_channel::oneshot::channel::<Result<(), duckdb::Error>>();
    assert!(client.submit_close(tx));
    assert!(matches!(rx.try_recv(), Ok(Command::Shutdown(_))));
}

#[test]
fn submit_to_gone_worker_is_closed() {
    let (client, rx) = Client::with_queue();
    drop(rx);
    let (tx, mut answer) = futures_channel::oneshot::channel::<Result<u32, duckdb::Error>>();
    assert!(matches!(client.submit(read_one, tx), Err(Error::Closed)));
    assert!(matches!(answer.try_recv(), Err(futures_channel::oneshot::Canceled)));
    let (tx, _answer) = futures_channel::oneshot::channel::<Result<(), duckdb::Error>>();
    assert!(!client.submit_close(tx));
}

#[test]
fn dropped_command_leaves_caller_closed() {
    let (client, rx) = Client::with_queue();
    let (tx, mut answer) = futures_channel::oneshot::channel::<Result<u32, duckdb::Error>>();
    client.submit(read_one, tx).unwrap();
    drop(rx.try_recv().unwrap());
    assert!(answer.try_recv().is_err());
}

#[test]
fn settle_call_passes_value_through() {
    assert!(matches!(settle_call(Some(Ok::<u32, duckdb::Error>(7))), Ok(7)));
}

#[test]
fn settle_call_without_answer_is_closed() {
    assert!(matches!(settle_call::<u32>(None), Err(Error::Closed)));
}

#[test]
fn settle_call_wraps_engine_error() {
    let r = settle_call::<u32>(Some(Err(duckdb::Error::QueryReturnedNoRows)));
    assert!(matches!(r, Err(Error::Duckdb(duckdb::Error::QueryReturnedNoRows))));
}

#[test]
fn settle_close_without_answer_is_ok() {
    assert!(settle_close(None).is_ok());
}

#[test]
fn settle_close_passes_answer_through() {
    assert!(settle_close(Some(Ok(()))).is_ok());
    let r = settle_close(Some(Err(duckdb::Error::InvalidQuery)));
    assert!(matches!(r, Err(Error::Duckdb(duckdb::Error::InvalidQuery))));
}

#[test]
fn in_memory_target() {
    assert_eq!(async_duckdb::IN_MEMORY, ":memory:");
}
