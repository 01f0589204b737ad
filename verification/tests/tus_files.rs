use rpcn::cmd_tus::types::Client;
use rpcn::error::DbError;
use rpcn::tus_files::Server;
use std::collections::HashSet;

#[test]
fn a_path_names_the_id_in_twenty_digits() {
    assert_eq!(Client::tus_id_to_path(42), "tus_data/00000000000000000042.tdt");
    assert_eq!(Client::tus_id_to_path(u64::MAX), "tus_data/18446744073709551615.tdt");
    assert_eq!(Client::tus_id_to_path(0), "tus_data/00000000000000000000.tdt");
}

#[test]
fn ids_are_handed_out_in_turn() {
    let mut server = Server::new();
    assert_eq!(Client::create_tus_data_file(&mut server).id, 1);
    let second = Client::create_tus_data_file(&mut server);
    assert_eq!(second.id, 2);
    assert_eq!(second.path, "tus_data/00000000000000000002.tdt");
    assert_eq!(second.finish(true), 2);
    assert_eq!(Client::create_tus_data_file(&mut server).finish(false), 0);
}

#[test]
fn numbering_takes_up_where_the_directory_left_off() {
    let mut server = Server::new();
    assert_eq!(server.initialize_tus_data_handler(Ok(77)), Ok(()));
    assert_eq!(Client::create_tus_data_file(&mut server).id, 77);
    assert_eq!(server.initialize_tus_data_handler(Err("no directory".to_owned())), Err("no directory".to_owned()));
    assert_eq!(Client::create_tus_data_file(&mut server).id, 78);
}

#[test]
fn ids_start_over_after_the_largest() {
    let mut server = Server::new();
    assert!(server.initialize_tus_data_handler(Ok(u64::MAX)).is_ok());
    assert_eq!(Client::create_tus_data_file(&mut server).id, u64::MAX);
    assert_eq!(Client::create_tus_data_file(&mut server).id, 0);
}

#[test]
fn a_sweep_removes_what_is_unrecorded() {
    let recorded: HashSet<u64> = [2u64, 4].into_iter().collect();
    let mut cleanup = Server::clean_tus_data(Ok(vec![1, 2, 3, 4]), Ok(recorded)).unwrap();
    assert_eq!(cleanup.unused, vec![1, 3]);
    assert!(cleanup.report().is_none());
    assert_eq!(cleanup.next().unwrap(), "tus_data/00000000000000000001.tdt");
    assert!(cleanup.removed(Ok(())).is_ok());
    assert_eq!(cleanup.next().unwrap(), "tus_data/00000000000000000003.tdt");
    assert!(cleanup.removed(Ok(())).is_ok());
    assert!(cleanup.next().is_none());
    assert_eq!(cleanup.report().unwrap(), "Deleted 2 tus data files");
}

#[test]
fn a_file_that_is_listed_twice_is_removed_once() {
    let recorded: HashSet<u64> = [2u64].into_iter().collect();
    let cleanup = Server::clean_tus_data(Ok(vec![5, 1, 2, 5, 1, 3, 2]), Ok(recorded)).unwrap();
    assert_eq!(cleanup.unused, vec![5, 1, 3]);
    assert_eq!(cleanup.num_deleted, 0);
}

#[test]
fn a_file_that_cannot_be_removed_ends_the_sweep() {
    let mut cleanup = Server::clean_tus_data(Ok(vec![9]), Ok(HashSet::new())).unwrap();
    assert_eq!(
        cleanup.removed(Err("denied".to_owned())),
        Err("Failed to delete tus data file(tus_data/00000000000000000009.tdt): denied".to_owned())
    );
    assert_eq!(cleanup.num_deleted, 0);
}

#[test]
fn a_sweep_needs_both_lists() {
    assert_eq!(
        Server::clean_tus_data(Ok(vec![1]), Err(DbError::Internal)).err(),
        Some("Failure to get tus data ids from database".to_owned())
    );
    assert_eq!(
        Server::clean_tus_data(Err("no directory".to_owned()), Err(DbError::Internal)).err(),
        Some("no directory".to_owned())
    );
}
