use std::error::Error;

use elfo_addr::utils::ErrorChain;

fn chain_of(error: &(dyn Error + 'static)) -> ErrorChain {
    let mut links = vec![error.to_string()];
    let mut cursor = error;
    while let Some(err) = cursor.source() {
        links.push(err.to_string());
        cursor = err;
    }
    ErrorChain(links)
}

#[test]
fn trivial_error_chain() {
    let error = anyhow::Error::msg("oops");
    assert_eq!(chain_of(&*error).to_string(), "oops");
}

#[test]
fn error_chain() {
    let innermost = anyhow::Error::msg("innermost");
    let inner = innermost.context("inner");
    let outer = inner.context("outer");
    assert_eq!(chain_of(&*outer).to_string(), "outer: inner: innermost");
}

#[test]
fn empty_error_chain() {
    assert_eq!(ErrorChain(Vec::new()).to_string(), "");
}
