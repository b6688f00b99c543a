use steward_harness::crypto::{install_rustls_crypto_provider, provider_outcome};
use tokio_rustls::rustls::crypto::CryptoProvider;
use tokio_rustls::rustls::ServerConfig;

#[test]
fn governed_connections_webhook_tls_server_configuration_selects_a_crypto_provider(
) -> Result<(), String> {
    install_rustls_crypto_provider().map_err(|error| error.to_string())?;
    let _ = ServerConfig::builder();
    Ok(())
}

#[test]
fn s4_server_tls_server_configuration_selects_a_crypto_provider() -> Result<(), String> {
    install_rustls_crypto_provider().map_err(|error| error.to_string())?;
    let _ = ServerConfig::builder();
    Ok(())
}

#[test]
fn task_client_selects_a_rustls_crypto_provider() -> Result<(), String> {
    install_rustls_crypto_provider().map_err(|error| error.to_string())?;
    assert!(
        CryptoProvider::get_default().is_some(),
        "the Task client must select Rustls cryptography before it constructs Kubernetes clients"
    );
    Ok(())
}

#[test]
fn a_missing_provider_is_told() {
    assert_eq!(provider_outcome(true), Ok(()));
    assert_eq!(
        provider_outcome(false),
        Err("Rustls crypto provider is unavailable".to_owned())
    );
}

#[test]
fn a_provider_is_selected_once() {
    assert_eq!(install_rustls_crypto_provider(), Ok(()));
    assert!(CryptoProvider::get_default().is_some());
    assert_eq!(install_rustls_crypto_provider(), Ok(()));
}
