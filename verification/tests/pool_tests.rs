use whirlpool::pool::{create_pool, read_pool, update_pool, Pool};

fn key_of(fill: u8) -> [u8; 32] {
    [fill; 32]
}

#[test]
fn create_fills_fields() {
    let mut pool = Pool::zeroed();
    create_pool(
        &mut pool,
        7,
        String::from("alpha"),
        String::from("first pool"),
        &key_of(1),
        &key_of(2),
        &key_of(3),
    );
    assert_eq!(pool.name, "alpha");
    assert_eq!(pool.description, "first pool");
    assert_eq!(pool.admin, key_of(1));
    assert_eq!(pool.mint, key_of(2));
    assert_eq!(pool.token_account, key_of(3));
    assert_eq!(pool.token_account_bump, 7);
    assert_eq!(pool.state_account, key_of(0));
    assert_eq!(pool.state_account_bump, 0);
}

#[test]
fn update_changes_text() {
    let mut pool = Pool::zeroed();
    create_pool(
        &mut pool,
        7,
        String::from("alpha"),
        String::from("first pool"),
        &key_of(1),
        &key_of(2),
        &key_of(3),
    );
    update_pool(&mut pool, String::from("beta"), String::from("renamed pool"));
    assert_eq!(pool.name, "beta");
    assert_eq!(pool.description, "renamed pool");
    assert_eq!(pool.admin, key_of(1));
    assert_eq!(pool.mint, key_of(2));
    assert_eq!(pool.token_account, key_of(3));
    assert_eq!(pool.token_account_bump, 7);
}

#[test]
fn update_with_same_text_keeps_fields() {
    let mut pool = Pool::zeroed();
    create_pool(
        &mut pool,
        7,
        String::from("alpha"),
        String::from("first pool"),
        &key_of(1),
        &key_of(2),
        &key_of(3),
    );
    update_pool(&mut pool, String::from("alpha"), String::from("first pool"));
    assert_eq!(pool.name, "alpha");
    assert_eq!(pool.description, "first pool");
}

#[test]
fn read_reports_fields_and_hex_keys() {
    let mut pool = Pool::zeroed();
    create_pool(
        &mut pool,
        7,
        String::from("alpha"),
        String::from("first pool"),
        &key_of(1),
        &key_of(2),
        &key_of(3),
    );
    let readout = read_pool(&pool, &key_of(0xab), &key_of(1), 9);
    assert_eq!(
        readout.pda_hex,
        "abababababababababababababababababababababababababababababababab"
    );
    assert_eq!(readout.name, "alpha");
    assert_eq!(readout.description, "first pool");
    assert_eq!(
        readout.admin_hex,
        "0101010101010101010101010101010101010101010101010101010101010101"
    );
    assert_eq!(readout.bump, 9);
}
