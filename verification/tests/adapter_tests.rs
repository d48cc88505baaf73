use mansion::adapter::{Inbound, Outbound, SimpleAdapter};
use mansion::encrypted::{EncryptedClientAdapter, EncryptedServerAdapter};
use mansion::error::Error;
use mansion::frame::{decode_header, encode_frame, HEADER_LEN};
use mansion::rsa_keys::{RsaPrivateParts, RsaPublicParts};
use rsa::traits::{PrivateKeyParts, PublicKeyParts};

fn rsa_pair() -> (rsa::RsaPrivateKey, rsa::RsaPublicKey) {
    let private = rsa::RsaPrivateKey::new(&mut rand::rngs::OsRng, 512).unwrap();
    let public = private.to_public_key();
    (private, public)
}

fn public_parts(key: &rsa::RsaPublicKey) -> RsaPublicParts {
    RsaPublicParts { n: key.n().to_bytes_be(), e: key.e().to_bytes_be() }
}

fn private_parts(key: &rsa::RsaPrivateKey) -> RsaPrivateParts {
    RsaPrivateParts::new(
        key.n().to_bytes_be(),
        key.e().to_bytes_be(),
        key.d().to_bytes_be(),
        key.primes().iter().map(|p| p.to_bytes_be()).collect(),
    )
    .unwrap()
}

fn keys() -> (RsaPrivateParts, RsaPublicParts) {
    let (private, public) = rsa_pair();
    (private_parts(&private), public_parts(&public))
}

fn established() -> (EncryptedClientAdapter, EncryptedServerAdapter) {
    let (private, _) = keys();
    let mut server = EncryptedServerAdapter::new(private);
    let mut client = EncryptedClientAdapter::new(server.rsa_public_key());
    let hello = client.encode(&Outbound::Handshake).ok().unwrap();
    assert_eq!(hello[0], 0);
    assert!(matches!(server.decode(&hello), Ok(Inbound::Handshake)));
    let answer = server.encode(&Outbound::Handshake).ok().unwrap();
    assert_eq!(answer.len(), 33);
    assert!(matches!(client.decode(&answer), Ok(Inbound::Handshake)));
    (client, server)
}

#[test]
fn simple_adapter_passes_bytes_through() {
    let a = SimpleAdapter::default();
    let b = a.cloned();
    let out = a.encode(vec![1, 2, 3]);
    assert_eq!(out, vec![1, 2, 3]);
    assert_eq!(b.decode(&out), vec![1, 2, 3]);
}

#[test]
fn new_adapters_have_no_shared_key() {
    let (private, public) = keys();
    let client = EncryptedClientAdapter::new(public);
    let server = EncryptedServerAdapter::new(private);
    assert!(!client.is_established());
    assert!(!server.is_established());
    assert_eq!(client.public_key().len(), 32);
    assert_ne!(client.public_key(), server.public_key());
}

#[test]
fn key_exchange_establishes_both_sides() {
    let (client, server) = established();
    assert!(client.is_established());
    assert!(server.is_established());
}

#[test]
fn server_answer_is_tag_and_public_key() {
    let (private, _) = keys();
    let server = EncryptedServerAdapter::new(private);
    let answer = server.encode(&Outbound::Handshake).ok().unwrap();
    assert_eq!(answer[0], 0);
    assert_eq!(&answer[1..], &server.public_key()[..]);
}

#[test]
fn client_message_reaches_server() {
    let (client, mut server) = established();
    let data = b"hello server".to_vec();
    let record = client.encode(&Outbound::Data(data.clone())).ok().unwrap();
    assert_eq!(record[0], 1);
    assert_eq!(record.len(), 1 + 12 + data.len() + 16);
    assert_ne!(&record[13..13 + data.len()], &data[..]);
    match server.decode(&record) {
        Ok(Inbound::Data(p)) => assert_eq!(p, data),
        _ => panic!("server did not read the message"),
    }
}

#[test]
fn framed_client_message_reaches_server() {
    let (client, mut server) = established();
    let data = vec![7u8; 100];
    let record = client.encode(&Outbound::Data(data.clone())).ok().unwrap();
    let frame = encode_frame(5, &record);
    let (id, len) = decode_header(&frame).unwrap();
    assert_eq!(id, 5);
    assert_eq!(len as usize, record.len());
    match server.decode(&frame[HEADER_LEN..]) {
        Ok(Inbound::Data(p)) => assert_eq!(p, data),
        _ => panic!("server did not read the message"),
    }
}

#[test]
fn server_message_reaches_client() {
    let (mut client, server) = established();
    let data = b"reply".to_vec();
    let record = server.encode(&Outbound::Data(data.clone())).ok().unwrap();
    assert_eq!(record[0], 1);
    assert_eq!(record.len(), 1 + 12 + data.len() + 16);
    match client.decode(&record) {
        Ok(Inbound::Data(p)) => assert_eq!(p, data),
        _ => panic!("client did not read the reply"),
    }
    assert!(client.is_established());
}

#[test]
fn server_rsa_public_key_is_the_pair_of_its_private_key() {
    let (private, public) = rsa_pair();
    let server = EncryptedServerAdapter::new(private_parts(&private));
    let pk = server.rsa_public_key();
    assert_eq!(pk.n, public.n().to_bytes_be());
    assert_eq!(pk.e, public.e().to_bytes_be());
}

#[test]
fn client_request_is_the_rsa_encryption_of_its_public_key() {
    let (private, public) = rsa_pair();
    let client = EncryptedClientAdapter::new(public_parts(&public));
    let hello = client.encode(&Outbound::Handshake).ok().unwrap();
    assert_eq!(hello[0], 0);
    assert_eq!(hello.len(), 1 + 64);
    let opened = private.decrypt(rsa::Pkcs1v15Encrypt, &hello[1..]).unwrap();
    assert_eq!(opened, client.public_key());
}

#[test]
fn request_fails_under_a_key_too_short_for_it() {
    // A 40-byte odd modulus is accepted by RSA, but 32 + 11 bytes do not fit.
    let mut n = vec![0xC5u8; 40];
    n[39] = 0x01;
    let client = EncryptedClientAdapter::new(RsaPublicParts { n, e: vec![0x01, 0x00, 0x01] });
    assert!(matches!(client.encode(&Outbound::Handshake), Err(Error::Custom(_))));
}

#[test]
fn request_fails_under_an_even_exponent() {
    let (_, public) = rsa_pair();
    let mut pk = public_parts(&public);
    pk.e = vec![0x01, 0x00, 0x02];
    let client = EncryptedClientAdapter::new(pk);
    assert!(matches!(client.encode(&Outbound::Handshake), Err(Error::Custom(_))));
}

#[test]
fn private_parts_need_two_primes() {
    assert!(RsaPrivateParts::new(vec![1], vec![1], vec![1], vec![vec![3]]).is_none());
    assert!(RsaPrivateParts::new(vec![1], vec![1], vec![1], vec![vec![3], vec![5]]).is_some());
}

#[test]
fn seal_with_a_given_nonce_has_the_documented_layout() {
    let key = [7u8; 32];
    let nonce = [9u8; 12];
    let out = mansion::encrypted::seal_with_nonce(1, &key, &nonce, b"abc").ok().unwrap();
    assert_eq!(out.len(), 1 + 12 + 3 + 16);
    assert_eq!(out[0], 1);
    assert_eq!(&out[1..13], &nonce[..]);
    assert_eq!(mansion::encrypted::seal_with_nonce(1, &key, &nonce, b"abc").ok().unwrap(), out);
}

#[test]
fn key_exchange_plaintext_of_wrong_length_is_caught() {
    let (private, public) = rsa_pair();
    let mut server = EncryptedServerAdapter::new(private_parts(&private));
    let ct = public
        .encrypt(&mut rand::rngs::OsRng, rsa::Pkcs1v15Encrypt, &[1u8; 31])
        .unwrap();
    let mut hello = vec![0u8];
    hello.extend_from_slice(&ct);
    assert!(server.decode_checked(&hello).is_none());
    assert!(!server.is_established());
    let ct = public
        .encrypt(&mut rand::rngs::OsRng, rsa::Pkcs1v15Encrypt, &[1u8; 32])
        .unwrap();
    let mut hello = vec![0u8];
    hello.extend_from_slice(&ct);
    assert!(matches!(server.decode_checked(&hello), Some(Ok(Inbound::Handshake))));
    assert!(server.is_established());
}

#[test]
fn client_without_key_sends_nothing() {
    let (_, public) = keys();
    let client = EncryptedClientAdapter::new(public);
    let out = client.encode(&Outbound::Data(vec![1, 2, 3])).ok().unwrap();
    assert!(out.is_empty());
}

#[test]
fn tampered_record_is_refused() {
    let (client, mut server) = established();
    let mut record = client.encode(&Outbound::Data(vec![1, 2, 3])).ok().unwrap();
    let last = record.len() - 1;
    record[last] ^= 0x01;
    assert!(matches!(server.decode(&record), Err(Error::Custom(_))));
}

#[test]
fn garbled_key_exchange_is_refused() {
    let (private, _) = keys();
    let mut server = EncryptedServerAdapter::new(private);
    let mut bogus = vec![0u8; 65];
    bogus[1] = 0x55;
    assert!(matches!(server.decode_checked(&bogus), Some(Err(Error::Custom(_)))));
    assert!(!server.is_established());
}

#[test]
fn client_key_of_wrong_length_is_refused() {
    let (private, _) = keys();
    let mut server = EncryptedServerAdapter::new(private);
    assert!(matches!(server.accept_client_key(&[1u8; 31]), Err(Error::Custom(_))));
    assert!(!server.is_established());
    assert!(matches!(server.accept_client_key(&[1u8; 32]), Ok(Inbound::Handshake)));
    assert!(server.is_established());
}

#[test]
fn second_key_exchange_keeps_the_first_key() {
    let (client, mut server) = established();
    // A second key from another client does not replace the server's key.
    assert!(matches!(server.accept_client_key(&[9u8; 32]), Ok(Inbound::Handshake)));
    let record = client.encode(&Outbound::Data(vec![4, 5])).ok().unwrap();
    match server.decode(&record) {
        Ok(Inbound::Data(p)) => assert_eq!(p, vec![4, 5]),
        _ => panic!("the first key was replaced"),
    }
}

#[test]
fn cloned_server_adapter_starts_fresh() {
    let (_, server) = established();
    let copy = server.cloned();
    assert!(!copy.is_established());
    assert_ne!(copy.public_key(), server.public_key());
}

#[test]
fn key_exchange_gives_both_sides_the_same_key() {
    let (private, public) = keys();
    let mut client = EncryptedClientAdapter::new(public);
    let mut server = EncryptedServerAdapter::new(private);
    let client_public = client.public_key();
    assert!(matches!(server.accept_client_key(&client_public), Ok(Inbound::Handshake)));
    let answer = server.encode(&Outbound::Handshake).ok().unwrap();
    assert!(matches!(client.decode(&answer), Ok(Inbound::Handshake)));
    let record = client.encode(&Outbound::Data(b"same key".to_vec())).ok().unwrap();
    match server.decode(&record) {
        Ok(Inbound::Data(p)) => assert_eq!(p, b"same key".to_vec()),
        _ => panic!("the two sides hold different keys"),
    }
}
