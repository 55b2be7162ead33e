use modem_manager_rs::cellular::digest::{
    socket_recv_digest_hook, ssl_recv_digest_hook, tcp_recv_digest_hook, FrameError,
};
use modem_manager_rs::quectel_atat::{ReadFile, SslRecv, TcpRecv};
use modem_manager_rs::text::{decimal_field, find_bytes, push_decimal, str_contains, str_eq};

#[test]
fn ssl_hook_frames_binary_payload() {
    let buf = b"\r\n+QSSLRECV: 5\r\na>OK\r\n\r\n\r\nOK\r\nrest";
    let (frame, consumed) = ssl_recv_digest_hook(buf).unwrap();
    assert_eq!(frame, b"+QSSLRECV: 5\r\na>OK\r");
    assert_eq!(consumed, buf.len() - 4);
}

#[test]
fn hooks_wait_for_the_whole_frame() {
    assert_eq!(ssl_recv_digest_hook(b"+QSSLRECV: 5"), Err(FrameError::Incomplete));
    assert_eq!(ssl_recv_digest_hook(b"+QSSLRECV: 5\r\nab"), Err(FrameError::Incomplete));
    assert_eq!(ssl_recv_digest_hook(b"+QSSLRECV: 2\r\nab\r\n"), Err(FrameError::Incomplete));
    assert_eq!(ssl_recv_digest_hook(b"+QSSLRECV: x\r\nab"), Err(FrameError::NoMatch));
    assert_eq!(ssl_recv_digest_hook(b"AT+QSSLRECV=1,512\r"), Err(FrameError::NoMatch));
    assert_eq!(tcp_recv_digest_hook(b"\r\nOK\r\n"), Err(FrameError::NoMatch));
}

#[test]
fn combined_hook_falls_back_to_tcp() {
    let buf = b"+QIRD: 2\r\nhi\r\n\r\nOK\r\n";
    let (frame, consumed) = socket_recv_digest_hook(buf).unwrap();
    assert_eq!(frame, b"+QIRD: 2\r\nhi");
    assert_eq!(consumed, buf.len());
    assert_eq!(socket_recv_digest_hook(b"+QSSLRECV: 3\r\n"), Err(FrameError::Incomplete));
}

#[test]
fn framed_read_parses_back() {
    let buf = b"+QSSLRECV: 4\r\nwxyz\r\n\r\nOK\r\n";
    let (frame, _) = ssl_recv_digest_hook(buf).unwrap();
    let cmd = SslRecv { client_id: 1, length: 512 };
    let resp = cmd.parse(frame).unwrap();
    assert_eq!(resp.length, 4);
    assert_eq!(resp.data, b"wxyz".to_vec());
}

#[test]
fn read_commands_render() {
    let mut buf = [0u8; 64];
    let n = SslRecv { client_id: 1, length: 512 }.write(&mut buf);
    assert_eq!(&buf[..n], b"AT+QSSLRECV=1,512\r");
    let n = TcpRecv { connect_id: 0, length: 7 }.write(&mut buf);
    assert_eq!(&buf[..n], b"AT+QIRD=0,7\r");
    let n = ReadFile { filehandle: 3, length: Some(128) }.write(&mut buf);
    assert_eq!(&buf[..n], b"AT+QFREAD=3,128\r");
    let n = ReadFile { filehandle: 3, length: None }.write(&mut buf);
    assert_eq!(&buf[..n], b"AT+QFREAD=3\r");
    let mut short = [0u8; 4];
    assert_eq!(TcpRecv { connect_id: 0, length: 7 }.write(&mut short), 4);
    assert_eq!(&short, b"AT+Q");
}

#[test]
fn read_responses_parse() {
    let tcp = TcpRecv { connect_id: 0, length: 512 };
    let r = tcp.parse(b"+QIRD: 3\r\nabcdef").unwrap();
    assert_eq!(r.length, 3);
    assert_eq!(r.data, b"abc".to_vec());
    let r = tcp.parse(b"+QIRD: 10\r\nab").unwrap();
    assert_eq!(r.length, 2);
    assert!(tcp.parse(b"+QIRD: 70000\r\nab").is_none());
    assert!(tcp.parse(b"+QIRD 3\r\nabc").is_none());
    let r = tcp.parse(b"+QIRD:  0 \r\n").unwrap();
    assert_eq!(r.length, 0);
    let f = ReadFile { filehandle: 1, length: Some(4) };
    let r = f.parse(b"\r\nCONNECT 4\r\n1234\r\nOK").unwrap();
    assert_eq!(r.read_length, 4);
    assert_eq!(r.data, b"1234".to_vec());
    let r = f.parse(b"CONNECT 8\r\n12").unwrap();
    assert_eq!(r.read_length, 2);
    assert_eq!(r.data, b"12".to_vec());
    assert!(f.parse(b"CLOSED 4\r\n1234").is_none());
}

#[test]
fn byte_text_helpers() {
    assert_eq!(find_bytes(b"abcabc", b"ca"), Some(2));
    assert_eq!(find_bytes(b"abc", b"x"), None);
    assert_eq!(decimal_field(b" +42\t", 100), Some(42));
    assert_eq!(decimal_field(b"101", 100), None);
    assert_eq!(decimal_field(b"4 2", 100), None);
    assert_eq!(decimal_field(b"", 100), None);
    let mut out = Vec::new();
    push_decimal(&mut out, 1762889945);
    assert_eq!(out, b"1762889945".to_vec());
    assert!(str_contains("+QIURC: \"closed\"", "closed"));
    assert!(!str_contains("recv", "closed"));
    assert!(str_contains("abc", ""));
    assert!(str_eq("SEARCH", "SEARCH"));
    assert!(!str_eq("SEARCH", "SEARCHING"));
}

#[test]
fn framing_then_parsing_gives_the_payload_back() {
    let payload: Vec<u8> = b"x\r\nOK\r\n>\r\n+QSSLRECV: 3\r\n\x00\xff".to_vec();
    let mut frame = b"+QSSLRECV: ".to_vec();
    push_decimal(&mut frame, payload.len() as u64);
    frame.extend_from_slice(b"\r\n");
    frame.extend_from_slice(&payload);
    frame.extend_from_slice(b"\r\n\r\nOK\r\n");
    let mut buf = frame.clone();
    buf.extend_from_slice(b"+QSSLURC: \"recv\",1\r\n");
    let (framed, consumed) = ssl_recv_digest_hook(&buf).unwrap();
    assert_eq!(consumed, frame.len());
    assert_eq!(framed, &frame[..frame.len() - 8]);
    for m in 11..frame.len() {
        assert_eq!(ssl_recv_digest_hook(&frame[..m]), Err(FrameError::Incomplete));
    }
    let r = SslRecv { client_id: 0, length: 7 }.parse(framed).unwrap();
    assert_eq!(r.length as usize, payload.len());
    assert_eq!(r.data, payload);
}
