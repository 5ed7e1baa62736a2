use autopush::tls::{acceptor_from_pem, tls_input, tls_next, TlsInput, TlsSetupError, TlsStep};
use openssl::asn1::Asn1Time;
use openssl::bn::BigNum;
use openssl::hash::MessageDigest;
use openssl::pkey::PKey;
use openssl::rsa::Rsa;
use openssl::x509::{X509Builder, X509NameBuilder};

fn key_and_cert() -> (Vec<u8>, Vec<u8>) {
    let rsa = Rsa::generate(2048).unwrap();
    let key = PKey::from_rsa(rsa).unwrap();
    let mut name = X509NameBuilder::new().unwrap();
    name.append_entry_by_text("CN", "localhost").unwrap();
    let name = name.build();
    let mut b = X509Builder::new().unwrap();
    b.set_version(2).unwrap();
    b.set_serial_number(&BigNum::from_u32(1).unwrap().to_asn1_integer().unwrap())
        .unwrap();
    b.set_subject_name(&name).unwrap();
    b.set_issuer_name(&name).unwrap();
    b.set_pubkey(&key).unwrap();
    b.set_not_before(&Asn1Time::days_from_now(0).unwrap()).unwrap();
    b.set_not_after(&Asn1Time::days_from_now(1).unwrap()).unwrap();
    b.sign(&key, MessageDigest::sha256()).unwrap();
    let cert = b.build();
    (
        key.private_key_to_pem_pkcs8().unwrap(),
        cert.to_pem().unwrap(),
    )
}

#[test]
fn acceptor_from_matching_key_and_cert() {
    let (key, cert) = key_and_cert();
    assert!(acceptor_from_pem(&key, &cert, None).is_ok());
}

#[test]
fn acceptor_steps_fail_in_order() {
    let (key, cert) = key_and_cert();
    let (other_key, _) = key_and_cert();
    assert_eq!(
        acceptor_from_pem(b"junk", b"junk", None).err(),
        Some(TlsSetupError::PrivateKey)
    );
    assert_eq!(
        acceptor_from_pem(&key, b"junk", None).err(),
        Some(TlsSetupError::Certificate)
    );
    assert_eq!(
        acceptor_from_pem(&other_key, &cert, None).err(),
        Some(TlsSetupError::CheckPrivateKey)
    );
    assert_eq!(
        acceptor_from_pem(&key, &cert, Some(b"junk")).err(),
        Some(TlsSetupError::DhParams)
    );
}

#[test]
fn tls_steps_in_order() {
    let order = [
        TlsStep::ParseKey,
        TlsStep::ParseCert,
        TlsStep::NewAcceptor,
        TlsStep::SetKey,
        TlsStep::SetCert,
        TlsStep::CheckKey,
        TlsStep::ParseDh,
        TlsStep::SetDh,
        TlsStep::Done,
    ];
    for w in order.windows(2) {
        assert_eq!(tls_next(w[0], true, true), Ok(w[1]));
    }
    assert_eq!(tls_next(TlsStep::CheckKey, true, false), Ok(TlsStep::Done));
    let errors = [
        TlsSetupError::PrivateKey,
        TlsSetupError::Certificate,
        TlsSetupError::AcceptorBuilder,
        TlsSetupError::SetPrivateKey,
        TlsSetupError::SetCertificate,
        TlsSetupError::CheckPrivateKey,
        TlsSetupError::DhParams,
        TlsSetupError::SetDhParams,
    ];
    for (step, e) in order.iter().zip(errors.iter()) {
        assert_eq!(tls_next(*step, false, true), Err(*e));
    }
    assert_eq!(tls_input(TlsStep::ParseKey), TlsInput::Key);
    assert_eq!(tls_input(TlsStep::ParseCert), TlsInput::Cert);
    assert_eq!(tls_input(TlsStep::ParseDh), TlsInput::Dh);
    assert_eq!(tls_input(TlsStep::SetKey), TlsInput::Nothing);
}

#[test]
fn swapped_pems_fail_on_the_key() {
    let (key, cert) = key_and_cert();
    assert_eq!(
        acceptor_from_pem(&cert, &key, None).err(),
        Some(TlsSetupError::PrivateKey)
    );
}
