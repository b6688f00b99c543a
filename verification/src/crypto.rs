//! The crypto provider that TLS connections are made with.
use vstd::prelude::*;

verus! {

/// `rustls::crypto::CryptoProvider::get_default`: whether the process has a crypto provider. That
/// rests on what was done in the process before, so nothing is said of it.
#[verifier::external_body]
fn provider_is_selected() -> (selected: bool) {
    tokio_rustls::rustls::crypto::CryptoProvider::get_default().is_some()
}

/// `rustls::crypto::CryptoProvider::install_default` of the provider of `ring`, and a look behind it
/// at whether the process has a crypto provider. The provider is put into a cell that is written
/// once: the call sets it, or finds that another one was set before, so that the process has one
/// when the call has returned. Which one it is rests on the process, and nothing is said of it.
#[verifier::external_body]
fn select_ring() -> (selected: bool)
    ensures
        selected,
{
    let _ = tokio_rustls::rustls::crypto::ring::default_provider().install_default();
    tokio_rustls::rustls::crypto::CryptoProvider::get_default().is_some()
}

/// What comes of looking for a crypto provider.
pub fn provider_outcome(selected: bool) -> (outcome: Result<(), String>)
    ensures
        match outcome {
            Ok(()) => selected,
            Err(words) => !selected && words@ == "Rustls crypto provider is unavailable"@,
        },
{
    if selected {
        Ok(())
    } else {
        Err("Rustls crypto provider is unavailable".to_owned())
    }
}

/// Makes sure that the process has a crypto provider: the one that it has, or else the one of
/// `ring`.
pub fn install_rustls_crypto_provider() -> (outcome: Result<(), String>)
    ensures
        outcome is Ok,
{
    let selected = if provider_is_selected() {
        true
    } else {
        select_ring()
    };
    provider_outcome(selected)
}

} // verus!
