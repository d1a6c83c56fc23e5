use denwa::config::Config;
use denwa::invitation::{
    decode_token, encode_token, invitation_line, preshared_key, preshared_key_from, random_psk,
    DecodeError,
};
use denwa::start::{
    join, lan, launch, local_port, subcommand_error_text, unknown_subcommand_text, wait, Launch,
    Request, StartError,
};

fn text(s: &str) -> String {
    s.to_string()
}

#[test]
fn tokens_are_base64() {
    assert_eq!(encode_token(b""), "");
    assert_eq!(encode_token(b"hello world"), "aGVsbG8gd29ybGQ=");
    assert_eq!(encode_token(&[0xfb, 0xff]), "+/8=");
    assert_eq!(decode_token("aGVsbG8gd29ybGQ="), Ok(b"hello world".to_vec()));
}

#[test]
fn tokens_read_back() {
    let mut token: Vec<u8> = Vec::new();
    for n in 0..=255u8 {
        let code = encode_token(&token);
        assert_eq!(code.len(), 4 * ((token.len() + 2) / 3));
        assert_eq!(decode_token(&code), Ok(token.clone()));
        assert_eq!(
            launch(Request::Join { invitation_token: code }),
            Ok(Launch::Join { token: token.clone() })
        );
        token.push(n);
    }
}

#[test]
fn bad_tokens_are_refused() {
    let bad_byte = DecodeError::InvalidByte { offset: 2, byte: b'!' };
    assert_eq!(decode_token("aG!sbG8="), Err(bad_byte));
    assert_eq!(decode_token("aGVsb"), Err(DecodeError::InvalidLength));
    let last = DecodeError::InvalidLastSymbol { offset: 2, byte: b'R' };
    assert_eq!(decode_token("iYR="), Err(last));
    assert_eq!(
        launch(Request::Join { invitation_token: text("aG!sbG8=") }),
        Err(StartError::Token(bad_byte))
    );
    assert_eq!(join(Err(DecodeError::InvalidLength)), Err(StartError::Token(DecodeError::InvalidLength)));
    assert_eq!(join(Ok(vec![1, 2])), Ok(Launch::Join { token: vec![1, 2] }));
}

#[test]
fn random_keys_have_their_length() {
    assert_eq!(random_psk(0), vec![]);
    assert_eq!(random_psk(8).len(), 8);
    assert_eq!(random_psk(1000).len(), 1000);
}

#[test]
fn random_keys_are_not_left_blank() {
    assert_ne!(random_psk(32), vec![0u8; 32]);
    assert_ne!(random_psk(32), random_psk(32));
}

#[test]
fn given_keys_are_taken_as_they_are() {
    assert_eq!(preshared_key(&Some(text("k\u{e9}y"))), vec![b'k', 0xc3, 0xa9, b'y']);
    assert_eq!(preshared_key(&Some(text(""))), vec![]);
    assert_eq!(preshared_key(&None).len(), 8);
}

#[test]
fn drawn_bytes_are_the_key_if_none_was_given() {
    assert_eq!(preshared_key_from(&None, vec![9, 8, 7]), vec![9, 8, 7]);
    assert_eq!(preshared_key_from(&Some(text("abc")), vec![9, 8, 7]), b"abc".to_vec());
    assert_ne!(preshared_key(&None), preshared_key(&None));
}

#[test]
fn the_key_is_handed_on_unchanged() {
    let address = text("example.org");
    assert_eq!(
        wait(address.clone(), "80", vec![1, 2]),
        Ok(Launch::Wait { server_address: address.clone(), server_port: 80, psk: vec![1, 2] })
    );
    assert_eq!(wait(address, "-1", vec![1, 2]), Err(StartError::ServerPort));
    assert_eq!(
        lan(text("127.0.0.1"), &None, vec![3]),
        Ok(Launch::Lan { bind_address: text("127.0.0.1"), local_port: 0, psk: vec![3] })
    );
}

#[test]
fn local_port_defaults_to_any() {
    assert_eq!(local_port(&None), 0);
    assert_eq!(local_port(&Some(text("10001"))), 10001);
    assert_eq!(local_port(&Some(text("65536"))), 0);
    assert_eq!(local_port(&Some(text("port"))), 0);
}

#[test]
fn waiting_needs_a_port() {
    let request = |port: &str| Request::Wait {
        server_address: text("example.org"),
        server_port: text(port),
        preshared_key: Some(text("abc")),
    };
    assert_eq!(
        launch(request("31415")),
        Ok(Launch::Wait {
            server_address: text("example.org"),
            server_port: 31415,
            psk: b"abc".to_vec(),
        })
    );
    assert_eq!(launch(request("70000")), Err(StartError::ServerPort));
    assert_eq!(launch(request("")), Err(StartError::ServerPort));
}

#[test]
fn lan_always_starts() {
    let request = Request::Lan {
        bind_address: text("127.0.0.1"),
        local_port: Some(text("oops")),
        preshared_key: None,
    };
    match launch(request) {
        Ok(Launch::Lan { bind_address, local_port, psk }) => {
            assert_eq!(bind_address, "127.0.0.1");
            assert_eq!(local_port, 0);
            assert_eq!(psk.len(), 8);
        }
        other => panic!("{:?}", other),
    }
}

#[test]
fn unknown_subcommands_are_refused() {
    assert_eq!(
        launch(Request::Other(text("sing"))),
        Err(StartError::UnknownSubcommand(text("sing")))
    );
    assert_eq!(unknown_subcommand_text("\"sing\""), "unknown subcommand \"sing\"");
    assert_eq!(subcommand_error_text("sing", "\"sing\""), "unknown subcommand \"sing\"");
}

#[test]
fn a_missing_subcommand_is_an_empty_name() {
    assert!(Config::from_options("mono", "24000", "2.5").is_ok());
    match launch(Request::Other(text(""))) {
        Err(StartError::UnknownSubcommand(name)) => {
            let quoted = format!("{:?}", name);
            assert_eq!(subcommand_error_text(&name, &quoted), "unknown subcommand \"\"");
            assert_eq!(unknown_subcommand_text(&quoted), "unknown subcommand \"\"");
        }
        other => panic!("{:?}", other),
    }
}

#[test]
fn the_invitation_is_shown() {
    assert_eq!(
        invitation_line(&encode_token(b"hello world")),
        "invitation-token: aGVsbG8gd29ybGQ="
    );
}
