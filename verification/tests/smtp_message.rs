use kannader::helo::{command_helo_args, HeloCommand};
use kannader::noop::{command_noop_args, NoopCommand};
use kannader::parse_helpers::{
    address_in_maybe_bracketed_path, address_in_path, email, full_maybe_bracketed_path, hostname,
};
use kannader::queue::Email;
use kannader::rcpt::{command_rcpt_args, RcptCommand};

#[test]
fn valid_command_noop_args() {
    let tests: Vec<(&[u8], &[u8])> = vec![
        (b" \t hello.world \t \r\n", b"hello.world \t "),
        (b"\r\n", b""),
        (b" \r\n", b""),
    ];
    for (s, r) in tests.into_iter() {
        let (cmd, end) = command_noop_args(s).unwrap();
        assert_eq!(cmd.string().as_slice(), r);
        assert_eq!(end, s.len());
    }
}

#[test]
fn valid_send_to() {
    let mut v = Vec::new();
    NoopCommand::new(b"useless string".to_vec()).send_to(&mut v);
    assert_eq!(v, b"NOOP useless string\r\n");
}

#[test]
fn valid_command_rcpt_args() {
    let tests: Vec<(&[u8], &[u8], Option<&[u8]>)> = vec![
        (b" TO:<@one,@two:foo@bar.baz>\r\n", b"foo", Some(&b"bar.baz"[..])),
        (
            b"tO: quux@example.net  \t \r\n",
            b"quux",
            Some(&b"example.net"[..]),
        ),
        (b"TO:<Postmaster>\r\n", b"Postmaster", None),
        (b"TO: \t poStmaster\r\n", b"poStmaster", None),
    ];
    for (s, l, h) in tests.into_iter() {
        let (res, end) = command_rcpt_args(s).unwrap();
        assert_eq!(res.to().raw_localpart().as_slice(), l);
        assert_eq!(res.to().hostname().as_ref().map(|v| v.as_slice()), h);
        assert_eq!(end, s.len());
    }
}

#[test]
fn valid_build() {
    let mut v = Vec::new();
    RcptCommand::new(Email::new(b"foo".to_vec(), Some(b"bar.com".to_vec()))).send_to(&mut v);
    assert_eq!(v, b"RCPT TO:<foo@bar.com>\r\n");

    v = Vec::new();
    RcptCommand::new(Email::new(b"Postmaster".to_vec(), None)).send_to(&mut v);
    assert_eq!(v, b"RCPT TO:<Postmaster>\r\n");
}

#[test]
fn valid_command_helo_args() {
    let tests: Vec<(&[u8], &[u8])> = vec![
        (b" \t hello.world \t \r\n", b"hello.world"),
        (b"hello.world\r\n", b"hello.world"),
    ];
    for (s, r) in tests.into_iter() {
        let (cmd, end) = command_helo_args(s).unwrap();
        assert_eq!(cmd.domain().as_slice(), r);
        assert_eq!(end, s.len());
    }
}

#[test]
fn mod_valid_build() {
    let mut v = Vec::new();
    HeloCommand::new(b"test.example.org".to_vec()).send_to(&mut v);
    assert_eq!(v, b"HELO test.example.org\r\n");
}

#[test]
fn valid_hostnames() {
    let tests: &[&[u8]] = &[
        b"foo--bar",
        b"foo.bar.baz",
        b"1.2.3.4",
        b"[123.255.37.2]",
        b"[IPv6:0::ffff:8.7.6.5]",
    ];
    for test in tests {
        let end = hostname(test, 0);
        assert_eq!(&test[..end], *test);
        assert_eq!(end, test.len());
    }
}

#[test]
fn valid_emails() {
    let tests: &[&[u8]] = &[b"t+e-s.t_i+n-g@foo.bar.baz"];
    for test in tests {
        let end = email(test, 0).unwrap();
        assert_eq!(&test[..end], *test);
        assert_eq!(end, test.len());
    }
}

#[test]
fn valid_addresses_in_paths() {
    let tests: &[(&[u8], &[u8])] = &[
        (
            b"@foo.bar,@baz.quux:test@example.org",
            b"test@example.org",
        ),
        (b"foo.bar@baz.quux", b"foo.bar@baz.quux"),
    ];
    for test in tests {
        let (a, e) = address_in_path(test.0, 0).unwrap();
        assert_eq!(&test.0[a..e], test.1);
        assert_eq!(e, test.0.len());
    }
}

#[test]
fn valid_addresses_in_maybe_bracketed_paths() {
    let tests: &[(&[u8], &[u8])] = &[
        (
            b"@foo.bar,@baz.quux:test@example.org",
            b"test@example.org",
        ),
        (
            b"<@foo.bar,@baz.quux:test@example.org>",
            b"test@example.org",
        ),
        (b"<foo@bar.baz>", b"foo@bar.baz"),
        (b"foo@bar.baz", b"foo@bar.baz"),
    ];
    for test in tests {
        let (a, e, t) = address_in_maybe_bracketed_path(test.0, 0).unwrap();
        assert_eq!(&test.0[a..e], test.1);
        assert_eq!(t, test.0.len());
    }
}

#[test]
fn valid_full_maybe_bracketed_paths() {
    let tests: &[&[u8]] = &[
        b"@foo.bar,@baz.quux:test@example.org",
        b"<@foo.bar,@baz.quux:test@example.org>",
        b"foo@bar.baz",
        b"<foo@bar.baz>",
    ];
    for test in tests {
        let t = full_maybe_bracketed_path(test, 0).unwrap();
        assert_eq!(&test[..t], *test);
        assert_eq!(t, test.len());
    }
}

#[test]
fn rejects_unterminated_lines_and_empty_addresses() {
    assert!(command_noop_args(b"no line ending").is_none());
    assert!(command_helo_args(b"host.example no crlf").is_none());
    assert!(command_rcpt_args(b"TO:<foo@bar>").is_none());
    assert!(command_rcpt_args(b"FROM:<foo@bar>\r\n").is_none());
    assert!(email(b"@no.localpart", 0).is_none());
    assert!(email(b"trailing@", 0).is_none());
    assert!(address_in_path(b"@route.only:", 0).is_none());
}

#[test]
fn noop_take_ownership_keeps_the_string() {
    let cmd = NoopCommand::new(b"still here".to_vec());
    let owned = cmd.take_ownership();
    assert_eq!(owned.string().as_slice(), b"still here");
}
