use bang_web::lobby::ConnectionCounter;

#[test]
fn connections_count_up_from_the_start() {
    let mut c = ConnectionCounter::new(1, 4);
    let ids: Vec<(u8, bool)> = (0..5)
        .map(|_| {
            let slot = c.connection_made();
            (slot.player_count, slot.on_open())
        })
        .collect();
    assert_eq!(ids, vec![(1, false), (2, false), (3, false), (4, false), (5, true)]);
    assert_eq!(c.player_count, 6);
    assert_eq!(c.max_player_count, 4);
}

#[test]
fn made_then_lost() {
    let mut c = ConnectionCounter::new(3, 4);
    c.connection_made();
    c.connection_lost();
    assert_eq!(c.player_count, 3);
    c.connection_lost();
    assert_eq!(c.player_count, 2);
}

#[test]
fn history_of_made_and_lost() {
    let mut c = ConnectionCounter::new(1, 4);
    for made in [true, true, false, true, false, false, true] {
        if made {
            c.connection_made();
        } else {
            c.connection_lost();
        }
    }
    assert_eq!(c.player_count, 1 + 4 - 3);
    assert_eq!(c.max_player_count, 4);
}
