use gitgate::forward::{
    forward_answer, forward_request, unusable_answer, Header, Incoming, Outgoing, MAX_BODY_BYTES,
};
use gitgate::proxy::Reply;

fn header(name: &str, value: &str) -> Header {
    Header { name: name.to_string(), value: value.as_bytes().to_vec() }
}

const CONNECTION: [&str; 8] = [
    "connection",
    "keep-alive",
    "proxy-authenticate",
    "proxy-authorization",
    "te",
    "trailers",
    "transfer-encoding",
    "upgrade",
];

fn mixed() -> Vec<Header> {
    let mut headers = vec![header("accept", "a"), header("host", "proxy:7443")];
    for name in CONNECTION {
        headers.push(header(name, "x"));
    }
    headers.push(header("accept", "b"));
    headers.push(header("git-protocol", "version=2"));
    headers
}

#[test]
fn connection_headers_and_host_stay_here() {
    assert_eq!(
        forward_request(Some("/o/r/info/refs?service=git-upload-pack"), &mixed(), true),
        Ok(Outgoing {
            url: "https://github.com/o/r/info/refs?service=git-upload-pack".to_string(),
            headers: vec![
                header("accept", "a"),
                header("accept", "b"),
                header("git-protocol", "version=2")
            ],
        })
    );
}

#[test]
fn request_without_path_goes_to_the_root() {
    let sent = forward_request(None, &Vec::new(), true).unwrap();
    assert_eq!(sent.url, "https://github.com/");
}

#[test]
fn unreadable_body_is_refused() {
    assert_eq!(
        forward_request(Some("/o/r"), &mixed(), false),
        Err(Reply { status: 400, body: "could not read request body\n".to_string() })
    );
    assert_eq!(MAX_BODY_BYTES, 8 * 1024 * 1024);
}

#[test]
fn answers_come_back_without_connection_headers() {
    assert_eq!(
        forward_answer(Ok((200, mixed()))),
        Ok(Incoming {
            status: 200,
            headers: vec![
                header("accept", "a"),
                header("host", "proxy:7443"),
                header("accept", "b"),
                header("git-protocol", "version=2")
            ],
        })
    );
}

#[test]
fn upstream_failures() {
    assert_eq!(
        forward_answer(Err("refused".to_string())),
        Err(Reply { status: 502, body: "GitGate: upstream error — refused\n".to_string() })
    );
    assert_eq!(unusable_answer("bad"), Reply { status: 500, body: "bad".to_string() });
}
