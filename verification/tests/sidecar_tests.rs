//! The counter, list and player-tracking rules the sidecar enforces,
//! exercised end to end on the library's server-state model.

use agones::sidecar::{PlayerRegistry, SidecarState};

#[test]
fn test_alpha_player_flow() {
    let mut alpha = PlayerRegistry::new();

    // Set and get player capacity
    alpha.set_player_capacity(15).unwrap();
    assert_eq!(alpha.capacity, 15);

    let capacity = alpha.get_player_capacity();
    assert_eq!(capacity, 15);

    // Connect player
    let player_id = "one";
    let ok = alpha.player_connect(player_id).unwrap();
    assert!(ok);
    assert_eq!(alpha.ids.last().map(|s| s.as_str()), Some(player_id));

    // Get player count
    let count = alpha.get_player_count();
    assert_eq!(count, 1);

    // Disconnect player
    let ok = alpha.player_disconnect(player_id);
    assert!(ok);
    assert_eq!(alpha.get_player_count(), 0);

    // Put the player back in
    let ok = alpha.player_connect(player_id).unwrap();
    assert!(ok);
    let count = alpha.get_player_count();
    assert_eq!(count, 1);

    // Is player connected (should be true)
    let ok = alpha.is_player_connected(player_id);
    assert!(ok, "Player should be connected");

    // Is player connected (should be false)
    let ok = alpha.is_player_connected("false");
    assert!(!ok, "Player should not be connected");

    // Get connected players
    let list = alpha.get_connected_players();
    assert_eq!(list, vec![player_id]);
}

#[test]
fn test_beta_get_and_update_counter() {
    let mut beta = SidecarState::new();

    assert!(beta.define_counter("sessions", 21, 42));
    assert!(beta.define_counter("games", 12, 24));
    assert!(beta.define_counter("gamers", 263, 500));

    // Set Counter and Set Capacity
    {
        let count = beta.get_counter_count("sessions").unwrap();
        assert_eq!(count, 21);

        let capacity = beta.get_counter_capacity("sessions").unwrap();
        assert_eq!(capacity, 42);

        let want_capacity = 25;
        beta.set_counter_capacity("sessions", want_capacity).unwrap();
        let capacity = beta.get_counter_capacity("sessions").unwrap();
        assert_eq!(capacity, want_capacity);

        let want_count = 10;
        beta.set_counter_count("sessions", want_count).unwrap();
        let count = beta.get_counter_count("sessions").unwrap();
        assert_eq!(count, want_count);
    }

    // Get and Set Non-Defined Counter
    {
        assert!(beta.get_counter_count("secessions").is_err());
        assert!(beta.get_counter_capacity("secessions").is_err());
        assert!(beta.set_counter_capacity("secessions", 100).is_err());
        assert!(beta.set_counter_count("secessions", 0).is_err());
    }

    // Decrement Counter Fails then Success
    {
        let count = beta.get_counter_count("games").unwrap();
        assert_eq!(count, 12);

        assert!(beta.decrement_counter("games", 21).is_err());
        let count = beta.get_counter_count("games").unwrap();
        assert_eq!(count, 12);

        assert!(beta.decrement_counter("games", -12).is_err());
        let count = beta.get_counter_count("games").unwrap();
        assert_eq!(count, 12);

        beta.decrement_counter("games", 12).unwrap();
        let count = beta.get_counter_count("games").unwrap();
        assert_eq!(count, 0);
    }
}

#[test]
fn test_beta_increment_counter_fails_then_success() {
    let mut beta = SidecarState::new();

    assert!(beta.define_counter("gamers", 263, 500));

    // Increment Counter Fails then Success
    {
        let count = beta.get_counter_count("gamers").unwrap();
        assert_eq!(count, 263);

        assert!(beta.increment_counter("gamers", 250).is_err());
        let count = beta.get_counter_count("gamers").unwrap();
        assert_eq!(count, 263);

        assert!(beta.increment_counter("gamers", -237).is_err());
        let count = beta.get_counter_count("gamers").unwrap();
        assert_eq!(count, 263);

        beta.increment_counter("gamers", 237).unwrap();
        let count = beta.get_counter_count("gamers").unwrap();
        assert_eq!(count, 500);
    }
}

#[test]
fn test_beta_get_and_update_list() {
    let mut beta = SidecarState::new();

    assert!(beta.define_list("foo", 2, vec![]));
    assert!(beta.define_list("bar", 5, vec!["abc".to_string(), "def".to_string()]));
    assert!(beta.define_list(
        "baz",
        5,
        vec!["123".to_string(), "456".to_string(), "789".to_string()],
    ));

    // Get and Set List Capacity
    {
        let capacity = beta.get_list_capacity("foo").unwrap();
        assert_eq!(capacity, 2);

        let want_capacity = 5;
        beta.set_list_capacity("foo", want_capacity).unwrap();
        let capacity = beta.get_list_capacity("foo").unwrap();
        assert_eq!(capacity, want_capacity);
    }

    // Get List Length, Get List Values, ListContains, and Append List Value
    {
        let length = beta.get_list_length("bar").unwrap();
        assert_eq!(length, 2);

        let values = beta.get_list_values("bar").unwrap();
        assert_eq!(values, vec!["abc".to_string(), "def".to_string()]);

        beta.append_list_value("bar", "ghi").unwrap();
        let length = beta.get_list_length("bar").unwrap();
        assert_eq!(length, 3);

        let want_values = vec!["abc".to_string(), "def".to_string(), "ghi".to_string()];
        let values = beta.get_list_values("bar").unwrap();
        assert_eq!(values, want_values);

        let contains = beta.list_contains("bar", "ghi").unwrap();
        assert!(contains);
    }

    // Get List Length, Get List Values, ListContains, and Delete List Value
    {
        let length = beta.get_list_length("baz").unwrap();
        assert_eq!(length, 3);

        let values = beta.get_list_values("baz").unwrap();
        assert_eq!(values, vec!["123".to_string(), "456".to_string(), "789".to_string()]);

        beta.delete_list_value("baz", "456").unwrap();
        let length = beta.get_list_length("baz").unwrap();
        assert_eq!(length, 2);

        let want_values = vec!["123".to_string(), "789".to_string()];
        let values = beta.get_list_values("baz").unwrap();
        assert_eq!(values, want_values);

        let contains = beta.list_contains("baz", "456").unwrap();
        assert!(!contains);
    }
}

#[test]
fn list_uniqueness_and_capacity_example() {
    let mut state = SidecarState::new();
    assert!(state.define_list("seats", 2, vec![]));

    state.append_list_value("seats", "a").unwrap();
    let again = state.append_list_value("seats", "a");
    assert!(again.is_err(), "a duplicate append must be rejected");

    state.append_list_value("seats", "b").unwrap();
    let overflow = state.append_list_value("seats", "c");
    assert!(overflow.is_err(), "an append beyond capacity must be rejected");

    let absent = state.delete_list_value("seats", "zzz");
    assert!(absent.is_err(), "removing an absent value must be rejected");

    assert_eq!(state.get_list_values("seats").unwrap(), vec!["a".to_string(), "b".to_string()]);
}

#[test]
fn counter_bounds_leave_count_unchanged() {
    let mut state = SidecarState::new();
    assert!(state.define_counter("rooms", 12, 24));

    // Over capacity: rejected, count stays.
    assert!(state.increment_counter("rooms", 13).is_err());
    assert_eq!(state.get_counter_count("rooms").unwrap(), 12);

    // Below zero: rejected, count stays.
    assert!(state.decrement_counter("rooms", 21).is_err());
    assert_eq!(state.get_counter_count("rooms").unwrap(), 12);

    // Exactly to the bounds: accepted.
    assert!(state.increment_counter("rooms", 12).is_ok());
    assert_eq!(state.get_counter_count("rooms").unwrap(), 24);
    assert!(state.decrement_counter("rooms", 24).is_ok());
    assert_eq!(state.get_counter_count("rooms").unwrap(), 0);

    // An absolute set outside [0, capacity]: rejected.
    assert!(state.set_counter_count("rooms", 25).is_err());
    assert!(state.set_counter_count("rooms", -1).is_err());
    assert_eq!(state.get_counter_count("rooms").unwrap(), 0);
}

#[test]
fn counter_capacity_clamps_count() {
    let mut state = SidecarState::new();
    assert!(state.define_counter("rooms", 21, 42));

    // Shrinking the capacity clamps the count into the new bound.
    state.set_counter_capacity("rooms", 10).unwrap();
    assert_eq!(state.get_counter_capacity("rooms").unwrap(), 10);
    assert_eq!(state.get_counter_count("rooms").unwrap(), 10);

    // A negative capacity is rejected.
    assert!(state.set_counter_capacity("rooms", -1).is_err());
}

#[test]
fn list_capacity_truncates_values() {
    let mut state = SidecarState::new();
    assert!(state.define_list(
        "seats",
        5,
        vec!["a".to_string(), "b".to_string(), "c".to_string()],
    ));

    state.set_list_capacity("seats", 2).unwrap();
    assert_eq!(state.get_list_values("seats").unwrap(), vec!["a".to_string(), "b".to_string()]);

    // Outside the allowed range: rejected.
    assert!(state.set_list_capacity("seats", 1001).is_err());
    assert!(state.set_list_capacity("seats", -1).is_err());
}

#[test]
fn duplicate_definitions_are_rejected() {
    let mut state = SidecarState::new();
    assert!(state.define_counter("rooms", 0, 10));
    assert!(!state.define_counter("rooms", 5, 20));
    assert!(!state.define_counter("lobby", -1, 10));
    assert!(!state.define_counter("lobby", 11, 10));

    assert!(state.define_list("seats", 2, vec![]));
    assert!(!state.define_list("seats", 2, vec![]));
    assert!(!state.define_list("dup", 2, vec!["x".to_string(), "x".to_string()]));
    assert!(!state.define_list("big", 1, vec!["x".to_string(), "y".to_string()]));
}

#[test]
fn player_registry_capacity_is_enforced() {
    let mut players = PlayerRegistry::new();
    players.set_player_capacity(1).unwrap();
    assert!(players.set_player_capacity(-1).is_err());

    assert!(players.player_connect("alice").unwrap());
    // Already connected: not added again.
    assert!(!players.player_connect("alice").unwrap());
    // At capacity: rejected.
    assert!(players.player_connect("bob").is_err());

    assert_eq!(players.get_player_count(), 1);
    assert!(players.player_disconnect("alice"));
    assert!(!players.player_disconnect("alice"));
    assert_eq!(players.get_player_count(), 0);
    assert_eq!(players.get_connected_players(), Vec::<String>::new());
}
