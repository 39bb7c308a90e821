use dbh_insights_helper::listener::{Listener, ServerStatus};

fn told(status: &ServerStatus) -> (bool, u16, Option<&str>) {
    (status.listening, status.port, status.error.as_deref())
}

#[test]
fn changing_the_port_moves_the_status() {
    let mut status = ServerStatus::default();
    assert_eq!(told(&status), (false, 0, None));
    assert_eq!(status.start(8765, Ok(())), Ok(()));
    assert_eq!(told(&status), (true, 8765, None));
    assert_eq!(status.start(9000, Ok(())), Ok(()));
    assert_eq!(told(&status), (true, 9000, None));
}

#[test]
fn a_port_in_use_keeps_the_status() {
    let mut status = ServerStatus::idle(8765);
    status.start(8765, Ok(())).unwrap();
    let error = status.start(9000, Err("address in use".to_owned())).unwrap_err();
    assert_eq!(error, "Could not listen on 127.0.0.1:9000: address in use");
    assert_eq!(told(&status), (true, 8765, None));
}

#[test]
fn a_server_that_stops_is_reported_while_it_is_the_current_one() {
    let mut status = ServerStatus::idle(8765);
    status.start(8765, Ok(())).unwrap();
    status.start(9000, Ok(())).unwrap();
    status.stop(8765, "gone");
    assert_eq!(told(&status), (true, 9000, None));
    status.stop(9000, "gone");
    assert_eq!(told(&status), (false, 9000, Some("Server stopped: gone")));
    status.start(9000, Ok(())).unwrap();
    assert_eq!(told(&status), (true, 9000, None));
}

#[test]
fn a_first_port_that_fails_is_reported() {
    let mut status = ServerStatus::idle(8765);
    let error = status.start(8765, Err("no".to_owned())).unwrap_err();
    status.fail(error);
    assert_eq!(told(&status.clone()), (false, 8765, Some("Could not listen on 127.0.0.1:8765: no")));
}

#[test]
fn moving_the_server_stops_the_one_before() {
    let mut listener: Listener<&str> = Listener::new(8765);
    assert_eq!(told(&listener.status()), (false, 8765, None));
    assert_eq!(listener.start(8765, Ok("first")), Ok(None));
    assert_eq!(listener.start(9000, Ok("second")), Ok(Some("first")));
    assert_eq!(told(&listener.status()), (true, 9000, None));

    // A port in use: the server that runs is not to be stopped.
    assert_eq!(
        listener.start(9001, Err("in use".to_owned())),
        Err("Could not listen on 127.0.0.1:9001: in use".to_owned())
    );
    assert_eq!(told(&listener.status()), (true, 9000, None));
    assert_eq!(listener.start(9002, Ok("third")), Ok(Some("second")));

    listener.stop(9000, "gone");
    assert_eq!(told(&listener.status()), (true, 9002, None));
    listener.stop(9002, "gone");
    assert_eq!(told(&listener.status()), (false, 9002, Some("Server stopped: gone")));
    listener.fail("why".to_owned());
    assert_eq!(told(&listener.status()), (false, 9002, Some("why")));
}
