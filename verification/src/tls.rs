//! TLS settings of the push server: which files the TLS acceptor is built
//! from, and the acceptor built from their PEM contents. Reading the files
//! is left to the application.
use vstd::prelude::*;

use openssl::dh::Dh;
use openssl::pkey::{PKey, Params, Private};
use openssl::ssl::{SslAcceptor, SslAcceptorBuilder, SslMethod, SslMode};
use openssl::x509::X509;

verus! {

#[verifier::external_type_specification]
#[verifier::external_body]
pub struct ExPrivate(Private);

#[verifier::external_type_specification]
#[verifier::external_body]
pub struct ExParams(Params);

#[verifier::external_type_specification]
#[verifier::external_body]
#[verifier::reject_recursive_types(T)]
pub struct ExPKey<T>(PKey<T>);

#[verifier::external_type_specification]
#[verifier::external_body]
#[verifier::reject_recursive_types(T)]
pub struct ExDh<T>(Dh<T>);

#[verifier::external_type_specification]
#[verifier::external_body]
pub struct ExX509(X509);

#[verifier::external_type_specification]
#[verifier::external_body]
pub struct ExSslAcceptor(SslAcceptor);

#[verifier::external_type_specification]
#[verifier::external_body]
pub struct ExSslAcceptorBuilder(SslAcceptorBuilder);

/// Calls `PKey::private_key_from_pem`, which panics on a text longer than
/// `i32::MAX` bytes. Whether OpenSSL parses the key
/// depends on the OpenSSL library linked in (and, for an encrypted key, on
/// a pass phrase OpenSSL may ask for), so nothing is claimed of the result.
#[verifier::external_body]
fn pem_private_key(pem: &[u8]) -> Option<PKey<Private>>
    requires
        pem@.len() <= i32::MAX,
{
    PKey::private_key_from_pem(pem).ok()
}

/// Calls `X509::from_pem`, which panics on a text longer than `i32::MAX`
/// bytes. Whether OpenSSL parses the certificate depends
/// on the OpenSSL library linked in, so nothing is claimed of the result.
#[verifier::external_body]
fn pem_certificate(pem: &[u8]) -> Option<X509>
    requires
        pem@.len() <= i32::MAX,
{
    X509::from_pem(pem).ok()
}

/// Calls `Dh::params_from_pem`, which panics on a text longer than
/// `i32::MAX` bytes. Whether OpenSSL parses the parameters
/// depends on the OpenSSL library linked in, so nothing is claimed of the
/// result.
#[verifier::external_body]
fn pem_dh_params(pem: &[u8]) -> Option<Dh<Params>>
    requires
        pem@.len() <= i32::MAX,
{
    Dh::params_from_pem(pem).ok()
}

/// Calls `SslAcceptor::mozilla_intermediate(SslMethod::tls())`, which
/// configures a new OpenSSL context; nothing is claimed of the result.
#[verifier::external_body]
fn acceptor_builder() -> Option<SslAcceptorBuilder> {
    SslAcceptor::mozilla_intermediate(SslMethod::tls()).ok()
}

/// Calls `set_private_key` on the builder; `true` when OpenSSL took the key.
#[verifier::external_body]
fn builder_set_private_key(builder: &mut SslAcceptorBuilder, key: &PKey<Private>) -> bool {
    builder.set_private_key(key).is_ok()
}

/// Calls `set_certificate` on the builder; `true` when OpenSSL took it.
#[verifier::external_body]
fn builder_set_certificate(builder: &mut SslAcceptorBuilder, cert: &X509) -> bool {
    builder.set_certificate(cert).is_ok()
}

/// Calls `check_private_key` on the builder; `true` when OpenSSL finds that
/// the key it holds matches its certificate.
#[verifier::external_body]
fn builder_check_private_key(builder: &SslAcceptorBuilder) -> bool {
    builder.check_private_key().is_ok()
}

/// Calls `set_tmp_dh` on the builder; `true` when OpenSSL took the
/// parameters.
#[verifier::external_body]
fn builder_set_tmp_dh(builder: &mut SslAcceptorBuilder, dh: &Dh<Params>) -> bool {
    builder.set_tmp_dh(dh).is_ok()
}

/// Calls `set_mode(SslMode::RELEASE_BUFFERS)` on the builder, which cannot
/// fail.
#[verifier::external_body]
fn builder_release_buffers(builder: &mut SslAcceptorBuilder) {
    builder.set_mode(SslMode::RELEASE_BUFFERS);
}

/// Calls `build` on the builder.
#[verifier::external_body]
fn builder_build(builder: SslAcceptorBuilder) -> SslAcceptor {
    builder.build()
}

/// The step of the TLS setup that failed.
#[derive(PartialEq, Eq, Structural, Clone, Copy, Debug)]
pub enum TlsSetupError {
    /// The private key did not parse.
    PrivateKey,
    /// The certificate did not parse.
    Certificate,
    /// The acceptor could not be created.
    AcceptorBuilder,
    /// The acceptor refused the private key.
    SetPrivateKey,
    /// The acceptor refused the certificate.
    SetCertificate,
    /// The private key does not match the certificate.
    CheckPrivateKey,
    /// The Diffie-Hellman parameters did not parse.
    DhParams,
    /// The acceptor refused the Diffie-Hellman parameters.
    SetDhParams,
}

/// The files, named by paths of type `P`, that make up the TLS
/// configuration.
#[derive(Debug)]
pub struct TlsFiles<P> {
    /// The private key, in PEM.
    pub key: P,
    /// The certificate, in PEM.
    pub cert: P,
    /// Diffie-Hellman parameters, in PEM, if configured.
    pub dh_param: Option<P>,
}

/// The files to configure TLS from: `None` when no private key is
/// configured (the server then speaks plain TCP). A configured key needs a
/// configured certificate.
pub fn tls_files<P>(ssl_key: Option<P>, ssl_cert: Option<P>, ssl_dh_param: Option<P>) -> (r: Option<
    TlsFiles<P>,
>)
    requires
        ssl_key is Some ==> ssl_cert is Some,
    ensures
        match ssl_key {
            None => r is None,
            Some(key) => r == Some(
                TlsFiles { key, cert: ssl_cert->Some_0, dh_param: ssl_dh_param },
            ),
        },
{
    let key = match ssl_key {
        Some(key) => key,
        None => return None,
    };
    let cert = match ssl_cert {
        Some(cert) => cert,
        None => vstd::pervasive::unreached(),
    };
    Some(TlsFiles { key, cert, dh_param: ssl_dh_param })
}

/// A step of the TLS setup, in the order they run.
#[derive(PartialEq, Eq, Structural, Clone, Copy, Debug)]
pub enum TlsStep {
    /// Parse the private key.
    ParseKey,
    /// Parse the certificate.
    ParseCert,
    /// Create the acceptor.
    NewAcceptor,
    /// Give the acceptor the private key.
    SetKey,
    /// Give the acceptor the certificate.
    SetCert,
    /// Check that the key matches the certificate.
    CheckKey,
    /// Parse the Diffie-Hellman parameters.
    ParseDh,
    /// Give the acceptor the Diffie-Hellman parameters.
    SetDh,
    /// Every step succeeded; the acceptor is built.
    Done,
}

/// The PEM text that a step parses.
#[derive(PartialEq, Eq, Structural, Clone, Copy, Debug)]
pub enum TlsInput {
    Key,
    Cert,
    Dh,
    Nothing,
}

/// What follows `step` when it succeeded (`ok`) or failed: the next step,
/// or the error of the failed step. The Diffie-Hellman steps are taken only
/// when parameters are configured (`has_dh`).
pub open spec fn spec_tls_next(step: TlsStep, ok: bool, has_dh: bool) -> Result<TlsStep, TlsSetupError> {
    if !ok {
        match step {
            TlsStep::ParseKey => Err(TlsSetupError::PrivateKey),
            TlsStep::ParseCert => Err(TlsSetupError::Certificate),
            TlsStep::NewAcceptor => Err(TlsSetupError::AcceptorBuilder),
            TlsStep::SetKey => Err(TlsSetupError::SetPrivateKey),
            TlsStep::SetCert => Err(TlsSetupError::SetCertificate),
            TlsStep::CheckKey => Err(TlsSetupError::CheckPrivateKey),
            TlsStep::ParseDh => Err(TlsSetupError::DhParams),
            TlsStep::SetDh => Err(TlsSetupError::SetDhParams),
            TlsStep::Done => Ok(TlsStep::Done),
        }
    } else {
        match step {
            TlsStep::ParseKey => Ok(TlsStep::ParseCert),
            TlsStep::ParseCert => Ok(TlsStep::NewAcceptor),
            TlsStep::NewAcceptor => Ok(TlsStep::SetKey),
            TlsStep::SetKey => Ok(TlsStep::SetCert),
            TlsStep::SetCert => Ok(TlsStep::CheckKey),
            TlsStep::CheckKey => if has_dh {
                Ok(TlsStep::ParseDh)
            } else {
                Ok(TlsStep::Done)
            },
            TlsStep::ParseDh => Ok(TlsStep::SetDh),
            TlsStep::SetDh => Ok(TlsStep::Done),
            TlsStep::Done => Ok(TlsStep::Done),
        }
    }
}

/// The PEM text that `step` parses.
pub open spec fn spec_tls_input(step: TlsStep) -> TlsInput {
    match step {
        TlsStep::ParseKey => TlsInput::Key,
        TlsStep::ParseCert => TlsInput::Cert,
        TlsStep::ParseDh => TlsInput::Dh,
        _ => TlsInput::Nothing,
    }
}

/// Whether the setup can reach `step` (short of `Done`): every step runs,
/// except the Diffie-Hellman steps without configured parameters.
pub open spec fn tls_step_taken(step: TlsStep, has_dh: bool) -> bool {
    step != TlsStep::Done && (has_dh || (step != TlsStep::ParseDh && step != TlsStep::SetDh))
}

/// The step after `step`, or the error of a failed `step`.
pub fn tls_next(step: TlsStep, ok: bool, has_dh: bool) -> (r: Result<TlsStep, TlsSetupError>)
    ensures
        r == spec_tls_next(step, ok, has_dh),
{
    if !ok {
        match step {
            TlsStep::ParseKey => Err(TlsSetupError::PrivateKey),
            TlsStep::ParseCert => Err(TlsSetupError::Certificate),
            TlsStep::NewAcceptor => Err(TlsSetupError::AcceptorBuilder),
            TlsStep::SetKey => Err(TlsSetupError::SetPrivateKey),
            TlsStep::SetCert => Err(TlsSetupError::SetCertificate),
            TlsStep::CheckKey => Err(TlsSetupError::CheckPrivateKey),
            TlsStep::ParseDh => Err(TlsSetupError::DhParams),
            TlsStep::SetDh => Err(TlsSetupError::SetDhParams),
            TlsStep::Done => Ok(TlsStep::Done),
        }
    } else {
        match step {
            TlsStep::ParseKey => Ok(TlsStep::ParseCert),
            TlsStep::ParseCert => Ok(TlsStep::NewAcceptor),
            TlsStep::NewAcceptor => Ok(TlsStep::SetKey),
            TlsStep::SetKey => Ok(TlsStep::SetCert),
            TlsStep::SetCert => Ok(TlsStep::CheckKey),
            TlsStep::CheckKey => if has_dh {
                Ok(TlsStep::ParseDh)
            } else {
                Ok(TlsStep::Done)
            },
            TlsStep::ParseDh => Ok(TlsStep::SetDh),
            TlsStep::SetDh => Ok(TlsStep::Done),
            TlsStep::Done => Ok(TlsStep::Done),
        }
    }
}

/// The PEM text that `step` parses.
pub fn tls_input(step: TlsStep) -> (r: TlsInput)
    ensures
        r == spec_tls_input(step),
{
    match step {
        TlsStep::ParseKey => TlsInput::Key,
        TlsStep::ParseCert => TlsInput::Cert,
        TlsStep::ParseDh => TlsInput::Dh,
        _ => TlsInput::Nothing,
    }
}

/// The PEM text, of the three given, that `input` names.
pub fn input_text<'a>(input: TlsInput, key_pem: &'a [u8], cert_pem: &'a [u8], dh_pem: Option<&'a [u8]>) -> (r: &'a [u8])
    requires
        input != TlsInput::Nothing,
        input == TlsInput::Dh ==> dh_pem is Some,
    ensures
        r@ == (match input {
            TlsInput::Key => key_pem@,
            TlsInput::Cert => cert_pem@,
            _ => dh_pem->Some_0@,
        }),
{
    match input {
        TlsInput::Key => key_pem,
        TlsInput::Cert => cert_pem,
        _ => match dh_pem {
            Some(d) => d,
            None => vstd::pervasive::unreached(),
        },
    }
}

/// Builds the TLS acceptor from the PEM texts of the private key, the
/// certificate and, if configured, the Diffie-Hellman parameters, taking the
/// steps of `TlsStep` in order as `tls_next` leads: each parse is handed the
/// text that `tls_input` names for its step, and the first step that fails
/// gives the error. Which steps succeed is OpenSSL's to decide.
pub fn acceptor_from_pem(key_pem: &[u8], cert_pem: &[u8], dh_pem: Option<&[u8]>) -> (r: Result<
    SslAcceptor,
    TlsSetupError,
>)
    requires
        key_pem@.len() <= i32::MAX,
        cert_pem@.len() <= i32::MAX,
        dh_pem matches Some(d) ==> d@.len() <= i32::MAX,
    ensures
        r matches Err(e) ==> exists|step: TlsStep|
            tls_step_taken(step, dh_pem is Some) && #[trigger] spec_tls_next(step, false, dh_pem is Some)
                == Err::<TlsStep, TlsSetupError>(e),
{
    let has_dh = dh_pem.is_some();

    let step = TlsStep::ParseKey;
    let key = pem_private_key(input_text(tls_input(step), key_pem, cert_pem, dh_pem));
    let step = match tls_next(step, key.is_some(), has_dh) {
        Ok(next) => next,
        Err(e) => return Err(e),
    };
    let key = match key {
        Some(key) => key,
        None => vstd::pervasive::unreached(),
    };

    let cert = pem_certificate(input_text(tls_input(step), key_pem, cert_pem, dh_pem));
    let step = match tls_next(step, cert.is_some(), has_dh) {
        Ok(next) => next,
        Err(e) => return Err(e),
    };
    let cert = match cert {
        Some(cert) => cert,
        None => vstd::pervasive::unreached(),
    };

    let builder = acceptor_builder();
    let step = match tls_next(step, builder.is_some(), has_dh) {
        Ok(next) => next,
        Err(e) => return Err(e),
    };
    let mut builder = match builder {
        Some(builder) => builder,
        None => vstd::pervasive::unreached(),
    };

    let ok = builder_set_private_key(&mut builder, &key);
    let step = match tls_next(step, ok, has_dh) {
        Ok(next) => next,
        Err(e) => return Err(e),
    };
    let ok = builder_set_certificate(&mut builder, &cert);
    let step = match tls_next(step, ok, has_dh) {
        Ok(next) => next,
        Err(e) => return Err(e),
    };
    let ok = builder_check_private_key(&builder);
    let step = match tls_next(step, ok, has_dh) {
        Ok(next) => next,
        Err(e) => return Err(e),
    };

    if step == TlsStep::ParseDh {
        let dh = pem_dh_params(input_text(tls_input(step), key_pem, cert_pem, dh_pem));
        let step = match tls_next(step, dh.is_some(), has_dh) {
            Ok(next) => next,
            Err(e) => return Err(e),
        };
        let dh = match dh {
            Some(dh) => dh,
            None => vstd::pervasive::unreached(),
        };
        let ok = builder_set_tmp_dh(&mut builder, &dh);
        match tls_next(step, ok, has_dh) {
            Ok(_) => {},
            Err(e) => return Err(e),
        }
    }
    // Should help reduce peak memory consumption for idle connections
    builder_release_buffers(&mut builder);
    Ok(builder_build(builder))
}

} // verus!
