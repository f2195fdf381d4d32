//! End-to-end tests: real TLS handshakes driven by the verified
//! configuration and acceptor state machine.
//!
//! The test environment offers no loopback networking, so the byte stream
//! under TLS is an in-memory duplex pipe; the listener abstraction is
//! transport-agnostic, and the TLS layer never looks below the stream.

use std::sync::Arc;
use std::time::Duration;

use poem::listener::acceptor::{ConfigOutcome, RustlsAcceptor};
use poem::listener::rustls::{CompiledClientAuth, EngineConfig, RustlsCertificate, RustlsConfig};
use tokio::io::{AsyncReadExt, AsyncWriteExt};
use tokio::time::timeout;
use tokio_rustls::rustls::pki_types::{PrivateKeyDer, ServerName};
use tokio_rustls::rustls::server::WebPkiClientVerifier;
use tokio_rustls::rustls::{ClientConfig, RootCertStore, ServerConfig};

const STEP: Duration = Duration::from_secs(5);

/// Serves certificates during the handshake by asking the engine
/// configuration's verified resolver.
struct EngineResolver(EngineConfig);

impl std::fmt::Debug for EngineResolver {
    fn fmt(&self, f: &mut std::fmt::Formatter<'_>) -> std::fmt::Result {
        f.debug_struct("EngineResolver").finish()
    }
}

impl tokio_rustls::rustls::server::ResolvesServerCert for EngineResolver {
    fn resolve(
        &self,
        client_hello: tokio_rustls::rustls::server::ClientHello,
    ) -> Option<Arc<tokio_rustls::rustls::sign::CertifiedKey>> {
        self.0
            .resolver()
            .resolve(client_hello.server_name())
            .map(|compiled| compiled.certified_key().clone())
    }
}

fn install_provider() {
    if tokio_rustls::rustls::crypto::CryptoProvider::get_default().is_none() {
        let _ = tokio_rustls::rustls::crypto::ring::default_provider().install_default();
    }
}

/// Assemble the engine-ready rustls server configuration from a compiled
/// engine configuration.
fn make_server_config(engine: EngineConfig) -> ServerConfig {
    install_provider();
    let builder = ServerConfig::builder();
    let builder = match engine.client_auth() {
        CompiledClientAuth::Off => builder.with_no_client_auth(),
        CompiledClientAuth::Optional(anchor) => {
            let verifier = WebPkiClientVerifier::builder(Arc::new(anchor.store().clone()))
                .allow_unauthenticated()
                .build()
                .unwrap();
            builder.with_client_cert_verifier(verifier)
        }
        CompiledClientAuth::Required(anchor) => {
            let verifier = WebPkiClientVerifier::builder(Arc::new(anchor.store().clone()))
                .build()
                .unwrap();
            builder.with_client_cert_verifier(verifier)
        }
    };
    let alpn = engine.alpn_protocols().clone();
    let mut config = builder.with_cert_resolver(Arc::new(EngineResolver(engine)));
    config.alpn_protocols = alpn;
    config
}

fn trust_anchor_store(pem: &[u8]) -> RootCertStore {
    let mut roots = RootCertStore::empty();
    let mut reader = pem;
    for der in rustls_pemfile::certs(&mut reader) {
        roots.add(der.unwrap()).unwrap();
    }
    roots
}

#[test]
fn tls_listener() {
    install_provider();
    let rt = tokio::runtime::Builder::new_current_thread()
        .enable_all()
        .build()
        .unwrap();
    rt.block_on(async {
        let ck = rcgen::generate_simple_self_signed(vec!["testserver.com".to_string()]).unwrap();
        let cert_pem = ck.cert.pem();
        let key_pem = ck.signing_key.serialize_pem();

        let config = RustlsConfig::new().fallback(
            RustlsCertificate::new()
                .cert(cert_pem.clone().into_bytes())
                .key(key_pem.into_bytes()),
        );

        let mut acceptor_state = RustlsAcceptor::new();
        // An accept before any configuration loads fails that call alone.
        assert!(acceptor_state.engine_for_accept().is_err());
        assert_eq!(acceptor_state.on_config(&config), ConfigOutcome::Loaded);
        // After the configuration loaded, accepting succeeds.
        let engine = acceptor_state.engine_for_accept().unwrap().clone();

        let tls_acceptor = tokio_rustls::TlsAcceptor::from(Arc::new(make_server_config(engine)));
        let (client_io, server_io) = tokio::io::duplex(16 * 1024);

        let client = tokio::spawn(async move {
            let roots = trust_anchor_store(cert_pem.as_bytes());
            let config = ClientConfig::builder()
                .with_root_certificates(roots)
                .with_no_client_auth();
            let connector = tokio_rustls::TlsConnector::from(Arc::new(config));
            let domain = ServerName::try_from("testserver.com").unwrap();
            let mut stream = timeout(STEP, connector.connect(domain, client_io))
                .await
                .expect("client handshake timed out")
                .expect("client handshake failed");
            stream.write_i32(10).await.unwrap();
            stream.flush().await.unwrap();
            // Hold the connection open until the server has read the value.
            let mut ack = [0u8; 1];
            let _ = stream.read_exact(&mut ack).await;
        });

        let mut stream = timeout(STEP, tls_acceptor.accept(server_io))
            .await
            .expect("server handshake timed out")
            .unwrap();
        assert_eq!(stream.read_i32().await.unwrap(), 10);
        let _ = stream.write_all(&[1]).await;
        let _ = stream.flush().await;
        timeout(STEP, client).await.unwrap().unwrap();
    });
}

fn client_auth_material() -> (Vec<u8>, Vec<u8>, String, Vec<u8>, PrivateKeyDer<'static>) {
    // The server's own certificate.
    let server = rcgen::generate_simple_self_signed(vec!["testserver.com".to_string()]).unwrap();
    let server_cert_pem = server.cert.pem().into_bytes();
    let server_key_pem = server.signing_key.serialize_pem().into_bytes();

    // A client authority, and one client certificate it issued.
    let ca_key = rcgen::KeyPair::generate().unwrap();
    let mut ca_params = rcgen::CertificateParams::new(Vec::<String>::new()).unwrap();
    ca_params.is_ca = rcgen::IsCa::Ca(rcgen::BasicConstraints::Unconstrained);
    ca_params
        .distinguished_name
        .push(rcgen::DnType::CommonName, "client authority");
    let ca_cert = ca_params.self_signed(&ca_key).unwrap();
    let ca_pem = ca_cert.pem();
    let issuer = rcgen::Issuer::new(ca_params, ca_key);

    let client_key = rcgen::KeyPair::generate().unwrap();
    let mut client_params = rcgen::CertificateParams::new(Vec::<String>::new()).unwrap();
    client_params
        .distinguished_name
        .push(rcgen::DnType::CommonName, "a client");
    client_params.extended_key_usages = vec![rcgen::ExtendedKeyUsagePurpose::ClientAuth];
    let client_cert = client_params.signed_by(&client_key, &issuer).unwrap();
    let client_cert_der = client_cert.der().to_vec();
    let client_key_der = PrivateKeyDer::try_from(client_key.serialize_der()).unwrap();

    (
        server_cert_pem,
        server_key_pem,
        ca_pem,
        client_cert_der,
        client_key_der,
    )
}

async fn handshake(
    server_config: ServerConfig,
    server_cert_pem: Vec<u8>,
    client_identity: Option<(Vec<u8>, PrivateKeyDer<'static>)>,
) -> Result<(), String> {
    let tls_acceptor = tokio_rustls::TlsAcceptor::from(Arc::new(server_config));
    let (client_io, server_io) = tokio::io::duplex(16 * 1024);

    let client = tokio::spawn(async move {
        let roots = trust_anchor_store(&server_cert_pem);
        let builder = ClientConfig::builder().with_root_certificates(roots);
        let config = match client_identity {
            Some((cert_der, key_der)) => builder
                .with_client_auth_cert(
                    vec![tokio_rustls::rustls::pki_types::CertificateDer::from(cert_der)],
                    key_der,
                )
                .unwrap(),
            None => builder.with_no_client_auth(),
        };
        let connector = tokio_rustls::TlsConnector::from(Arc::new(config));
        let domain = ServerName::try_from("testserver.com").unwrap();
        match timeout(STEP, connector.connect(domain, client_io)).await {
            Ok(Ok(mut stream)) => {
                let _ = stream.write_i32(7).await;
                let _ = stream.flush().await;
                let mut ack = [0u8; 1];
                let _ = timeout(STEP, stream.read_exact(&mut ack)).await;
            }
            Ok(Err(_)) | Err(_) => {}
        }
    });

    let result = match timeout(STEP, tls_acceptor.accept(server_io)).await {
        Ok(Ok(mut stream)) => match timeout(STEP, stream.read_i32()).await {
            Ok(Ok(7)) => {
                let _ = stream.write_all(&[1]).await;
                let _ = stream.flush().await;
                Ok(())
            }
            Ok(Ok(other)) => Err(format!("unexpected payload {other}")),
            Ok(Err(err)) => Err(err.to_string()),
            Err(_) => Err("read timed out".to_string()),
        },
        Ok(Err(err)) => Err(err.to_string()),
        Err(_) => Err("handshake timed out".to_string()),
    };
    let _ = timeout(STEP, client).await;
    result
}

#[test]
fn client_auth_policy_enforced() {
    install_provider();
    let rt = tokio::runtime::Builder::new_current_thread()
        .enable_all()
        .build()
        .unwrap();
    rt.block_on(async {
        let (server_cert, server_key, ca_pem, client_cert_der, client_key_der) =
            client_auth_material();

        let base = |anchor: Option<(&str, bool)>| {
            let config = RustlsConfig::new().fallback(
                RustlsCertificate::new()
                    .cert(server_cert.clone())
                    .key(server_key.clone()),
            );
            match anchor {
                Some((pem, required)) => {
                    if required {
                        config.client_auth_required(pem.as_bytes().to_vec())
                    } else {
                        config.client_auth_optional(pem.as_bytes().to_vec())
                    }
                }
                None => config,
            }
        };

        // Off: a client presenting no certificate is accepted.
        let engine = base(None).create_server_config().unwrap();
        assert!(handshake(make_server_config(engine), server_cert.clone(), None)
            .await
            .is_ok());

        // Required: the same client is rejected.
        let engine = base(Some((&ca_pem, true))).create_server_config().unwrap();
        assert!(handshake(make_server_config(engine), server_cert.clone(), None)
            .await
            .is_err());

        // Required: a client presenting a certificate the anchor issued is
        // accepted.
        let engine = base(Some((&ca_pem, true))).create_server_config().unwrap();
        assert!(handshake(
            make_server_config(engine),
            server_cert.clone(),
            Some((client_cert_der.clone(), client_key_der.clone_key())),
        )
        .await
        .is_ok());

        // Optional: both are accepted.
        let engine = base(Some((&ca_pem, false))).create_server_config().unwrap();
        assert!(handshake(make_server_config(engine), server_cert.clone(), None)
            .await
            .is_ok());

        let engine = base(Some((&ca_pem, false))).create_server_config().unwrap();
        assert!(handshake(
            make_server_config(engine),
            server_cert.clone(),
            Some((client_cert_der, client_key_der)),
        )
        .await
        .is_ok());
    });
}

#[test]
fn mismatched_key_fails_at_handshake_not_at_accept_loop() {
    install_provider();
    let rt = tokio::runtime::Builder::new_current_thread()
        .enable_all()
        .build()
        .unwrap();
    rt.block_on(async {
        // A certificate paired with another certificate's key: the
        // descriptor checks pass, and the failure is confined to the
        // handshake of the one connection.
        let a = rcgen::generate_simple_self_signed(vec!["testserver.com".to_string()]).unwrap();
        let b = rcgen::generate_simple_self_signed(vec!["testserver.com".to_string()]).unwrap();
        let config = RustlsConfig::new().fallback(
            RustlsCertificate::new()
                .cert(a.cert.pem().into_bytes())
                .key(b.signing_key.serialize_pem().into_bytes()),
        );
        let engine = config.create_server_config().unwrap();
        let result = handshake(
            make_server_config(engine),
            a.cert.pem().into_bytes(),
            None,
        )
        .await;
        assert!(result.is_err());
    });
}
