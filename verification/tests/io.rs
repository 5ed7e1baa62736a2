use autopush::rc::RcObject;
use autopush::tls::tls_files;
use autopush::webpush_io::WebpushIo;
use bytes::BytesMut;

#[test]
fn replay_header_then_socket() {
    let mut io = WebpushIo::new(7u8, BytesMut::from(&b"GET / HTTP"[..]));
    let mut buf = [0u8; 4];
    assert_eq!(io.replay_header(&mut buf), Some(4));
    assert_eq!(&buf, b"GET ");
    assert_eq!(io.replay_header(&mut buf), Some(4));
    assert_eq!(&buf, b"/ HT");
    let mut big = [9u8; 6];
    assert_eq!(io.replay_header(&mut big), Some(2));
    assert_eq!(&big, b"TP\x09\x09\x09\x09");
    assert_eq!(io.replay_header(&mut big), None);
    assert_eq!(io.replay_header(&mut big), None);
    assert_eq!(&big, b"TP\x09\x09\x09\x09");
    assert_eq!(*io.tcp_mut(), 7);
}

#[test]
fn replay_into_empty_buffer() {
    let mut io = WebpushIo::new((), BytesMut::from(&b"ab"[..]));
    let mut empty: [u8; 0] = [];
    assert_eq!(io.replay_header(&mut empty), Some(0));
    let mut buf = [0u8; 8];
    assert_eq!(io.replay_header(&mut buf), Some(2));
    assert_eq!(io.replay_header(&mut empty), Some(0));
    assert_eq!(io.replay_header(&mut buf), None);
}

#[test]
fn replay_empty_header() {
    let mut io = WebpushIo::new((), BytesMut::new());
    let mut buf = [1u8; 3];
    assert_eq!(io.replay_header(&mut buf), None);
    assert_eq!(buf, [1, 1, 1]);
}

#[test]
fn rc_object_shares_value() {
    let a = RcObject::new(vec![1u8]);
    let b = a.clone();
    {
        let mut guard = a.borrow_mut().unwrap();
        guard.push(2);
        assert!(b.borrow_mut().is_none());
    }
    assert_eq!(*b.borrow_mut().unwrap(), vec![1u8, 2]);
}

#[test]
fn tls_only_with_key() {
    assert!(tls_files::<&str>(None, None, None).is_none());
    assert!(tls_files(None, Some("cert.pem"), Some("dh.pem")).is_none());
    let files = tls_files(Some("key.pem"), Some("cert.pem"), None).unwrap();
    assert_eq!(files.key, "key.pem");
    assert_eq!(files.cert, "cert.pem");
    assert_eq!(files.dh_param, None);
    let files = tls_files(Some("key.pem"), Some("cert.pem"), Some("dh.pem")).unwrap();
    assert_eq!(files.dh_param, Some("dh.pem"));
}
