use tokiotest_httpserver::ports::{PortError, PortPool, DEFAULT_FIRST_PORT, DEFAULT_LAST_PORT};
use tokiotest_httpserver::{release_port, take_port};

#[test]
fn default_pool_holds_one_hundred_ports() {
    let pool = PortPool::new();
    assert_eq!(12300, DEFAULT_FIRST_PORT);
    assert_eq!(12399, DEFAULT_LAST_PORT);
    assert_eq!(100, pool.available());
    assert!(pool.is_free(12300));
    assert!(pool.is_free(12399));
    assert!(!pool.is_free(12299));
    assert!(!pool.is_free(12400));
}

#[test]
fn take_port_hands_out_the_highest_free_port() {
    let mut pool = PortPool::new();
    assert_eq!(Ok(12399), take_port(&mut pool));
    assert_eq!(Ok(12398), take_port(&mut pool));
    assert_eq!(98, pool.available());
    assert!(!pool.is_free(12399));
    assert!(!pool.is_free(12398));
    assert!(pool.is_free(12397));
}

#[test]
fn two_takes_never_give_the_same_port() {
    let mut pool = PortPool::new();
    let first = take_port(&mut pool).unwrap();
    let second = take_port(&mut pool).unwrap();
    assert_ne!(first, second);
    assert_eq!(Ok(()), release_port(&mut pool, first));
    assert_eq!(Ok(()), release_port(&mut pool, second));
    assert_eq!(100, pool.available());
    assert!(pool.is_free(first));
    assert!(pool.is_free(second));
}

#[test]
fn released_port_is_handed_out_again() {
    let mut pool = PortPool::new();
    let first = take_port(&mut pool).unwrap();
    let second = take_port(&mut pool).unwrap();
    assert_eq!(Ok(()), release_port(&mut pool, first));
    assert_eq!(Ok(first), take_port(&mut pool));
    assert_eq!(Ok(()), release_port(&mut pool, second));
    assert_eq!(Ok(second), take_port(&mut pool));
}

#[test]
fn release_in_any_order_keeps_the_pool_in_order() {
    let mut pool = PortPool::with_range(10, 14);
    for expected in [14u16, 13, 12, 11, 10] {
        assert_eq!(Ok(expected), take_port(&mut pool));
    }
    for port in [12u16, 10, 14, 11, 13] {
        assert_eq!(Ok(()), release_port(&mut pool, port));
    }
    for expected in [14u16, 13, 12, 11, 10] {
        assert_eq!(Ok(expected), take_port(&mut pool));
    }
}

#[test]
fn exhausted_pool_reports_it() {
    let mut pool = PortPool::with_range(7, 8);
    assert_eq!(Ok(8), take_port(&mut pool));
    assert_eq!(Ok(7), take_port(&mut pool));
    assert_eq!(Err(PortError::PoolExhausted), take_port(&mut pool));
    assert_eq!(Err(PortError::PoolExhausted), take_port(&mut pool));
    assert_eq!(0, pool.available());
}

#[test]
fn exhausting_the_default_pool_takes_one_hundred_calls() {
    let mut pool = PortPool::new();
    for expected in (12300u16..12400).rev() {
        assert_eq!(Ok(expected), pool.acquire());
    }
    assert_eq!(Err(PortError::PoolExhausted), pool.acquire());
}

#[test]
fn releasing_a_free_port_is_refused() {
    let mut pool = PortPool::new();
    assert_eq!(Err(PortError::NotCheckedOut), release_port(&mut pool, 12350));
    assert_eq!(100, pool.available());
    let port = take_port(&mut pool).unwrap();
    assert_eq!(Ok(()), release_port(&mut pool, port));
    assert_eq!(Err(PortError::NotCheckedOut), release_port(&mut pool, port));
    assert_eq!(100, pool.available());
}

#[test]
fn releasing_a_port_outside_the_range_is_refused() {
    let mut pool = PortPool::new();
    let _ = take_port(&mut pool).unwrap();
    assert_eq!(Err(PortError::NotCheckedOut), pool.release(12299));
    assert_eq!(Err(PortError::NotCheckedOut), pool.release(12400));
    assert_eq!(Err(PortError::NotCheckedOut), pool.release(54321));
    assert_eq!(Err(PortError::NotCheckedOut), pool.release(0));
    assert_eq!(99, pool.available());
}

#[test]
fn empty_range_gives_an_empty_pool() {
    let mut pool = PortPool::with_range(9, 8);
    assert_eq!(0, pool.available());
    assert_eq!(Err(PortError::PoolExhausted), take_port(&mut pool));
    assert_eq!(Err(PortError::NotCheckedOut), release_port(&mut pool, 8));
}

#[test]
fn range_may_reach_the_highest_port() {
    let mut pool = PortPool::with_range(65534, 65535);
    assert_eq!(2, pool.available());
    assert_eq!(Ok(65535), take_port(&mut pool));
    assert_eq!(Ok(65534), take_port(&mut pool));
    assert_eq!(Ok(()), release_port(&mut pool, 65535));
    assert!(pool.is_free(65535));
}

#[test]
fn single_port_range() {
    let mut pool = PortPool::with_range(0, 0);
    assert_eq!(1, pool.available());
    assert_eq!(Ok(0), take_port(&mut pool));
    assert_eq!(Ok(()), release_port(&mut pool, 0));
    assert_eq!(1, pool.available());
}

#[test]
fn pool_stays_well_formed() {
    let mut pool = PortPool::new();
    assert!(pool.is_well_formed());
    let first = take_port(&mut pool).unwrap();
    let second = take_port(&mut pool).unwrap();
    assert!(pool.is_well_formed());
    let _ = release_port(&mut pool, second);
    let _ = release_port(&mut pool, first);
    let _ = release_port(&mut pool, first);
    assert!(pool.is_well_formed());
    assert!(PortPool::with_range(3, 2).is_well_formed());
}
