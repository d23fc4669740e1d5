use threadstat::signal::Signal;

#[test]
fn numbers_match_libc() {
    let all = [
        (Signal::SIGHUP, libc::SIGHUP),
        (Signal::SIGINT, libc::SIGINT),
        (Signal::SIGQUIT, libc::SIGQUIT),
        (Signal::SIGILL, libc::SIGILL),
        (Signal::SIGABRT, libc::SIGABRT),
        (Signal::SIGFPE, libc::SIGFPE),
        (Signal::SIGKILL, libc::SIGKILL),
        (Signal::SIGSEGV, libc::SIGSEGV),
        (Signal::SIGPIPE, libc::SIGPIPE),
        (Signal::SIGALRM, libc::SIGALRM),
        (Signal::SIGTERM, libc::SIGTERM),
    ];
    for (s, n) in all {
        assert_eq!(s.number(), n);
    }
}

#[test]
fn numbers_keep_order() {
    assert_eq!(Signal::numbers(&[Signal::SIGTERM, Signal::SIGINT]), vec![15, 2]);
}
