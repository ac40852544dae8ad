use stm32f7_discovery::random::{ErrorType, Rng, Status};

fn status() -> Status {
    Status { ceis: false, seis: false, cecs: false, secs: false, drdy: false }
}

#[test]
fn rng_init_refuses_enabled_generator() {
    assert!(matches!(Rng::init(true), Err(ErrorType::AlreadyEnabled)));
    assert!(Rng::init(false).is_ok());
}

#[test]
fn rng_hands_out_new_numbers() {
    let mut rng = Rng::init(false).ok().unwrap();
    let mut s = status();
    s.drdy = true;
    let o = rng.poll_and_get(s, 1234);
    assert!(matches!(o.result, Ok(1234)));
    assert!(!o.reset);
    // the same number again is not handed out
    let o = rng.poll_and_get(s, 1234);
    assert!(matches!(o.result, Err(ErrorType::NotReady)));
    let o = rng.poll_and_get(s, 99);
    assert!(matches!(o.result, Ok(99)));
}

#[test]
fn rng_errors_and_resets() {
    let mut rng = Rng::init(false).ok().unwrap();
    let mut s = status();
    s.cecs = true;
    s.secs = true;
    let o = rng.poll_and_get(s, 0);
    assert!(matches!(o.result, Err(ErrorType::CECS)) && !o.reset);
    s.seis = true;
    let o = rng.poll_and_get(s, 0);
    assert!(matches!(o.result, Err(ErrorType::SEIS)) && o.reset);
    s.ceis = true;
    let o = rng.poll_and_get(s, 0);
    assert!(matches!(o.result, Err(ErrorType::CEIS)) && o.reset);
    let mut t = status();
    t.secs = true;
    let o = rng.poll_and_get(t, 0);
    assert!(matches!(o.result, Err(ErrorType::SECS)) && o.reset);
}

#[test]
fn rng_resets_after_81_empty_polls() {
    let mut rng = Rng::init(false).ok().unwrap();
    let s = status();
    for _ in 0..80 {
        let o = rng.poll_and_get(s, 0);
        assert!(matches!(o.result, Err(ErrorType::NotReady)) && !o.reset);
    }
    let o = rng.poll_and_get(s, 0);
    assert!(o.reset);
    let o = rng.poll_and_get(s, 0);
    assert!(!o.reset);
    let mut d = status();
    d.drdy = true;
    assert_eq!(rng.tick(d, 7).0, 7);
    assert_eq!(rng.tick(d, 7).0, 0);
}
