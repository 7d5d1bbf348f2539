use zdownload::session::Session;

#[test]
fn run_completes() {
    let mut s = Session::new();
    s.start();
    s.launch();
    assert!(s.finish());
    assert_eq!(s, Session { downloading: false, running: false });
    assert!(!s.finish());
}

#[test]
fn cancel_silences_completion() {
    let mut s = Session::new();
    s.start();
    s.launch();
    assert!(s.cancel());
    assert!(!s.finish());
}

#[test]
fn cancel_without_process() {
    let mut s = Session::new();
    s.start();
    assert!(!s.cancel());
    assert!(!s.downloading);
    assert!(!s.cancel());
}
